//! What the process spawner asks the native runtime to launch for a job.
use vstd::prelude::*;
use crate::jobs::{strings_view, Job, JobView};

verus! {

/// The sandbox-host executable that every job runs under.
pub const SANDBOX_HOST: &'static str = "target/release/embedder";

/// A launch of `world_size` processes of `command` with arguments `argv`.
pub struct SpawnRequest {
    pub command: String,
    pub argv: Vec<String>,
    pub world_size: i32,
}

/// The arguments of the sandbox host for a job: its callback address, then
/// the module path, then the module's own arguments.
pub open spec fn spawn_argv(j: JobView) -> Seq<Seq<char>> {
    seq!["--callback"@, j.callback, j.path] + j.argv
}

/// The launch that runs `job`.
pub fn spawn_request(job: &Job) -> (r: SpawnRequest)
    ensures
        r.command@ == SANDBOX_HOST@,
        strings_view(r.argv@) == spawn_argv(job@),
        r.world_size == job.world_size,
{
    let mut argv: Vec<String> = Vec::new();
    argv.push("--callback".to_owned());
    argv.push(job.callback.clone());
    argv.push(job.path.clone());
    let mut i: usize = 0;
    while i < job.argv.len()
        invariant
            i <= job.argv@.len(),
            argv@.len() == 3 + i,
            argv@[0]@ == "--callback"@,
            argv@[1]@ == job.callback@,
            argv@[2]@ == job.path@,
            forall|k: int| 0 <= k < i ==> argv@[3 + k]@ == job.argv@[k]@,
        decreases job.argv@.len() - i,
    {
        argv.push(job.argv[i].clone());
        i = i + 1;
    }
    assert(strings_view(argv@) =~= spawn_argv(job@));
    SpawnRequest { command: SANDBOX_HOST.to_owned(), argv, world_size: job.world_size }
}

} // verus!
