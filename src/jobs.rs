//! Job registry and admission control over a fixed pool of execution slots.
use vstd::prelude::*;
use crate::host::{lemma_uuid_text_injective, new_uuid, uuid_text, uuid_text_of};

verus! {

/// Where a job is in its life.
#[derive(Clone, Copy, Debug, PartialEq, Eq, Structural)]
pub enum JobState {
    Submitted,
    Running,
    Failed,
    Completed,
}

impl JobState {
    /// Failed and Completed accept no further change.
    pub open spec fn is_terminal(self) -> bool {
        self == JobState::Failed || self == JobState::Completed
    }

    pub fn is_final(&self) -> (r: bool)
        ensures
            r == self.is_terminal(),
    {
        match self {
            JobState::Failed | JobState::Completed => true,
            _ => false,
        }
    }
}

/// What a client asks to run.
pub struct JobPost {
    pub path: String,
    pub argv: Vec<String>,
    pub world_size: i32,
}

/// A job as the registry keeps it.
pub struct Job {
    pub uuid: u128,
    pub path: String,
    pub argv: Vec<String>,
    pub world_size: i32,
    pub state: JobState,
    pub callback: String,
}

/// A job's record as plain values.
pub struct JobView {
    pub uuid: u128,
    pub path: Seq<char>,
    pub argv: Seq<Seq<char>>,
    pub world_size: i32,
    pub state: JobState,
    pub callback: Seq<char>,
}

pub open spec fn strings_view(v: Seq<String>) -> Seq<Seq<char>> {
    v.map_values(|s: String| s@)
}

impl View for Job {
    type V = JobView;

    open spec fn view(&self) -> JobView {
        JobView {
            uuid: self.uuid,
            path: self.path@,
            argv: strings_view(self.argv@),
            world_size: self.world_size,
            state: self.state,
            callback: self.callback@,
        }
    }
}

fn copy_strings(v: &Vec<String>) -> (r: Vec<String>)
    ensures
        strings_view(r@) == strings_view(v@),
{
    let mut r: Vec<String> = Vec::new();
    let mut i: usize = 0;
    while i < v.len()
        invariant
            i <= v@.len(),
            r@.len() == i,
            forall|j: int| 0 <= j < i ==> r@[j]@ == v@[j]@,
        decreases v@.len() - i,
    {
        r.push(v[i].clone());
        i = i + 1;
    }
    assert(strings_view(r@) =~= strings_view(v@));
    r
}

impl Job {
    /// A record equal to this one.
    pub fn copy_record(&self) -> (r: Job)
        ensures
            r@ == self@,
    {
        Job {
            uuid: self.uuid,
            path: self.path.clone(),
            argv: copy_strings(&self.argv),
            world_size: self.world_size,
            state: self.state,
            callback: self.callback.clone(),
        }
    }
}

/// The record with another state.
pub open spec fn with_state(j: JobView, state: JobState) -> JobView {
    JobView { state, ..j }
}

/// The slots that a job holds: its world size while it is not terminal.
pub open spec fn slots_held(j: JobView) -> int {
    if j.state.is_terminal() {
        0
    } else {
        j.world_size as int
    }
}

/// The slots that all the jobs of `jobs` hold together.
pub open spec fn held(jobs: Seq<JobView>) -> int
    decreases jobs.len(),
{
    if jobs.len() == 0 {
        0
    } else {
        held(jobs.drop_last()) + slots_held(jobs.last())
    }
}

/// Whether some job of `jobs` has id `uuid`.
pub open spec fn has_job(jobs: Seq<JobView>, uuid: u128) -> bool {
    exists|i: int| 0 <= i < jobs.len() && jobs[i].uuid == uuid
}

/// The position of the job with id `uuid`.
pub open spec fn job_index(jobs: Seq<JobView>, uuid: u128) -> int {
    choose|i: int| 0 <= i < jobs.len() && jobs[i].uuid == uuid
}

proof fn lemma_held_push(jobs: Seq<JobView>, j: JobView)
    ensures
        held(jobs.push(j)) == held(jobs) + slots_held(j),
{
    assert(jobs.push(j).drop_last() =~= jobs);
}

proof fn lemma_held_update(jobs: Seq<JobView>, i: int, j: JobView)
    requires
        0 <= i < jobs.len(),
    ensures
        held(jobs.update(i, j)) == held(jobs) - slots_held(jobs[i]) + slots_held(j),
    decreases jobs.len(),
{
    let u = jobs.update(i, j);
    if i == jobs.len() - 1 {
        assert(u.drop_last() =~= jobs.drop_last());
    } else {
        assert(u.drop_last() =~= jobs.drop_last().update(i, j));
        lemma_held_update(jobs.drop_last(), i, j);
    }
}

proof fn lemma_held_nonneg(jobs: Seq<JobView>)
    requires
        forall|i: int| 0 <= i < jobs.len() ==> jobs[i].world_size >= 1,
    ensures
        held(jobs) >= 0,
    decreases jobs.len(),
{
    if jobs.len() > 0 {
        lemma_held_nonneg(jobs.drop_last());
    }
}

/// Why a submission was turned away.
#[derive(Clone, Copy, Debug, PartialEq, Eq, Structural)]
pub enum SubmitError {
    /// The job asks for more slots than are free.
    InsufficientSlots { requested: i32, free: i32 },
    /// The id drawn for the job already names another job.
    DuplicateId,
}

/// Why a state report was turned away.
#[derive(Clone, Copy, Debug, PartialEq, Eq, Structural)]
pub enum UpdateError {
    /// No job has that id.
    NotFound,
    /// The job is Failed or Completed, and a different state was asked for.
    FinalState,
}

impl View for JobPost {
    type V = (Seq<char>, Seq<Seq<char>>, i32);

    open spec fn view(&self) -> (Seq<char>, Seq<Seq<char>>, i32) {
        (self.path@, strings_view(self.argv@), self.world_size)
    }
}

/// The address at which a job reports its state.
pub open spec fn callback_address(host: Seq<char>, uuid: u128) -> Seq<char> {
    "http://"@ + host + "/jobs/"@ + uuid_text_of(uuid) + "/callback"@
}

/// A submission's result as plain values.
pub open spec fn submitted_view(r: Result<Job, SubmitError>) -> Result<JobView, SubmitError> {
    match r {
        Ok(j) => Ok(j@),
        Err(e) => Err(e),
    }
}

/// The registry of all jobs ever admitted, and the pool of free slots.
///
/// The slots that are free and those that the Submitted and Running jobs
/// hold add up, at all times, to the slots of the universe less the one that
/// the controller itself runs on.
pub struct Controller {
    capacity: i32,
    free_slots: i32,
    host: String,
    jobs: Vec<Job>,
}

/// What `submit_with_id` does: admission, and the record it creates.
pub open spec fn submit_outcome(
    c0: Controller,
    c1: Controller,
    uuid: u128,
    post: (Seq<char>, Seq<Seq<char>>, i32),
    r: Result<JobView, SubmitError>,
) -> bool {
    let (path, argv, world_size) = post;
    let unchanged = c1.spec_jobs() == c0.spec_jobs() && c1.spec_free_slots()
        == c0.spec_free_slots();
    &&& c1.spec_capacity() == c0.spec_capacity()
    &&& c1.spec_host() == c0.spec_host()
    &&& if world_size > c0.spec_free_slots() {
        &&& r == Err::<JobView, SubmitError>(
            SubmitError::InsufficientSlots {
                requested: world_size,
                free: c0.spec_free_slots() as i32,
            },
        )
        &&& unchanged
    } else if has_job(c0.spec_jobs(), uuid) {
        &&& r == Err::<JobView, SubmitError>(SubmitError::DuplicateId)
        &&& unchanged
    } else {
        let job = JobView {
            uuid,
            path,
            argv,
            world_size,
            state: JobState::Submitted,
            callback: callback_address(c0.spec_host(), uuid),
        };
        &&& r == Ok::<JobView, SubmitError>(job)
        &&& c1.spec_jobs() == c0.spec_jobs().push(job)
        &&& c1.spec_free_slots() == c0.spec_free_slots() - world_size
    }
}

/// What `update_state` does: the transition, and the slots it gives back.
pub open spec fn update_outcome(
    c0: Controller,
    c1: Controller,
    uuid: u128,
    state: JobState,
    r: Result<(), UpdateError>,
) -> bool {
    let jobs = c0.spec_jobs();
    let unchanged = c1.spec_jobs() == jobs && c1.spec_free_slots() == c0.spec_free_slots();
    &&& c1.spec_capacity() == c0.spec_capacity()
    &&& c1.spec_host() == c0.spec_host()
    &&& if !has_job(jobs, uuid) {
        r == Err::<(), UpdateError>(UpdateError::NotFound) && unchanged
    } else {
        let i = job_index(jobs, uuid);
        let cur = jobs[i];
        if cur.state == state {
            r == Ok::<(), UpdateError>(()) && unchanged
        } else if cur.state.is_terminal() {
            r == Err::<(), UpdateError>(UpdateError::FinalState) && unchanged
        } else {
            &&& r == Ok::<(), UpdateError>(())
            &&& c1.spec_jobs() == jobs.update(i, with_state(cur, state))
            &&& c1.spec_free_slots() == c0.spec_free_slots() + slots_held(cur) - slots_held(
                with_state(cur, state),
            )
        }
    }
}

impl Controller {
    /// The slots of the pool: the universe less the controller's own.
    pub closed spec fn spec_capacity(&self) -> int {
        self.capacity as int
    }

    pub closed spec fn spec_free_slots(&self) -> int {
        self.free_slots as int
    }

    /// The address, host and port, that callback addresses point to.
    pub closed spec fn spec_host(&self) -> Seq<char> {
        self.host@
    }

    /// Every job admitted so far, in order of admission.
    pub closed spec fn spec_jobs(&self) -> Seq<JobView> {
        self.jobs@.map_values(|j: Job| j@)
    }

    pub closed spec fn wf(&self) -> bool {
        let jobs = self.spec_jobs();
        &&& 0 <= self.free_slots
        &&& self.free_slots + held(jobs) == self.capacity
        &&& forall|i: int| 0 <= i < jobs.len() ==> jobs[i].world_size >= 1
        &&& forall|i: int| 0 <= i < jobs.len() ==> jobs[i].callback == callback_address(self.host@, jobs[i].uuid)
        &&& forall|i: int, j: int| 0 <= i < j < jobs.len() ==> jobs[i].uuid != jobs[j].uuid
    }

    proof fn lemma_index(&self, i: int)
        requires
            self.wf(),
            0 <= i < self.jobs@.len(),
        ensures
            has_job(self.spec_jobs(), self.jobs@[i].uuid),
            job_index(self.spec_jobs(), self.jobs@[i].uuid) == i,
    {
        let jobs = self.spec_jobs();
        assert(jobs[i].uuid == self.jobs@[i].uuid);
        let k = job_index(jobs, self.jobs@[i].uuid);
        if k < i {
            assert(jobs[k].uuid != jobs[i].uuid);
        } else if k > i {
            assert(jobs[i].uuid != jobs[k].uuid);
        }
    }

    /// A controller over a universe of `universe_size` ranks, one of which it
    /// takes itself; callback addresses point to `host`.
    pub fn new(universe_size: i32, host: String) -> (r: Controller)
        requires
            universe_size >= 1,
        ensures
            r.wf(),
            r.spec_capacity() == universe_size - 1,
            r.spec_free_slots() == universe_size - 1,
            r.spec_jobs() == Seq::<JobView>::empty(),
            r.spec_host() == host@,
    {
        let r = Controller { capacity: universe_size - 1, free_slots: universe_size - 1, host, jobs: Vec::new() };
        assert(r.spec_jobs() =~= Seq::<JobView>::empty());
        r
    }

    /// The slots that no job holds.
    pub fn free_slots(&self) -> (r: i32)
        ensures
            r == self.spec_free_slots(),
    {
        self.free_slots
    }

    /// All jobs, in order of admission.
    pub fn list(&self) -> (r: &Vec<Job>)
        ensures
            r@.map_values(|j: Job| j@) == self.spec_jobs(),
    {
        &self.jobs
    }

    fn find(&self, uuid: u128) -> (r: Option<usize>)
        requires
            self.wf(),
        ensures
            match r {
                Some(i) => i < self.jobs@.len() && self.jobs@[i as int].uuid == uuid && has_job(self.spec_jobs(), uuid)
                    && job_index(self.spec_jobs(), uuid) == i,
                None => !has_job(self.spec_jobs(), uuid),
            },
    {
        let mut i: usize = 0;
        while i < self.jobs.len()
            invariant
                self.wf(),
                i <= self.jobs@.len(),
                forall|j: int| 0 <= j < i ==> self.jobs@[j].uuid != uuid,
            decreases self.jobs@.len() - i,
        {
            if self.jobs[i].uuid == uuid {
                proof {
                    self.lemma_index(i as int);
                }
                return Some(i);
            }
            i = i + 1;
        }
        proof {
            if has_job(self.spec_jobs(), uuid) {
                let k = choose|k: int| 0 <= k < self.spec_jobs().len() && self.spec_jobs()[k].uuid == uuid;
                assert(self.jobs@[k].uuid == uuid);
            }
        }
        None
    }

    /// Admits `post` as job `uuid` if its world size fits in the free slots:
    /// takes the slots and records the job as Submitted.
    pub fn submit_with_id(&mut self, uuid: u128, post: JobPost) -> (r: Result<Job, SubmitError>)
        requires
            old(self).wf(),
            post.world_size >= 1,
        ensures
            final(self).wf(),
            submit_outcome(*old(self), *final(self), uuid, post@, submitted_view(r)),
    {
        if self.free_slots < post.world_size {
            return Err(SubmitError::InsufficientSlots { requested: post.world_size, free: self.free_slots });
        }
        if self.find(uuid).is_some() {
            return Err(SubmitError::DuplicateId);
        }
        let text = uuid_text(uuid);
        let mut callback = "http://".to_owned();
        callback.append(self.host.as_str());
        callback.append("/jobs/");
        callback.append(text.as_str());
        callback.append("/callback");
        let job = Job {
            uuid,
            path: post.path,
            argv: post.argv,
            world_size: post.world_size,
            state: JobState::Submitted,
            callback,
        };
        let ghost before = self.spec_jobs();
        let record = job.copy_record();
        self.jobs.push(record);
        self.free_slots = self.free_slots - job.world_size;
        proof {
            assert(self.spec_jobs() =~= before.push(job@));
            lemma_held_push(before, job@);
        }
        Ok(job)
    }

    /// Admits `post` under a freshly drawn id if its world size fits in the
    /// free slots.
    pub fn submit(&mut self, post: JobPost) -> (r: Result<Job, SubmitError>)
        requires
            old(self).wf(),
            post.world_size >= 1,
        ensures
            final(self).wf(),
            exists|uuid: u128| submit_outcome(*old(self), *final(self), uuid, post@, submitted_view(r)),
    {
        let uuid = new_uuid();
        self.submit_with_id(uuid, post)
    }

    /// Applies a state report for job `uuid`.
    pub fn update_state(&mut self, uuid: u128, state: JobState) -> (r: Result<(), UpdateError>)
        requires
            old(self).wf(),
        ensures
            final(self).wf(),
            update_outcome(*old(self), *final(self), uuid, state, r),
    {
        let i = match self.find(uuid) {
            Some(i) => i,
            None => return Err(UpdateError::NotFound),
        };
        let cur = self.jobs[i].state;
        if cur == state {
            return Ok(());
        }
        if cur.is_final() {
            return Err(UpdateError::FinalState);
        }
        let world_size = self.jobs[i].world_size;
        let ghost before = self.spec_jobs();
        proof {
            assert(before[i as int] == self.jobs@[i as int]@);
            lemma_held_update(before, i as int, with_state(before[i as int], state));
            lemma_held_nonneg(before.update(i as int, with_state(before[i as int], state)));
        }
        if state.is_final() {
            self.free_slots = self.free_slots + world_size;
        }
        let job = &mut self.jobs[i];
        job.state = state;
        proof {
            assert(self.spec_jobs() =~= before.update(i as int, with_state(before[i as int], state)));
        }
        Ok(())
    }
}

/// On one host, two jobs have the same callback address only if they have
/// the same id.
pub proof fn lemma_callback_injective(host: Seq<char>, a: u128, b: u128)
    requires
        callback_address(host, a) == callback_address(host, b),
    ensures
        a == b,
{
    let p: int = ("http://"@.len() + host.len() + "/jobs/"@.len()) as int;
    assert(callback_address(host, a).subrange(p, p + 36) =~= uuid_text_of(a));
    assert(callback_address(host, b).subrange(p, p + 36) =~= uuid_text_of(b));
    lemma_uuid_text_injective(a, b);
}

/// What every registered job satisfies: its world size is positive, its
/// callback address is derived from its id, no two jobs share an id or a
/// callback address, and looking a job up by its id finds it.
pub proof fn lemma_registry(c: &Controller)
    requires
        c.wf(),
    ensures
        forall|i: int| 0 <= i < c.spec_jobs().len() ==> #[trigger] c.spec_jobs()[i].world_size >= 1,
        forall|i: int|
            0 <= i < c.spec_jobs().len() ==> #[trigger] c.spec_jobs()[i].callback == callback_address(
                c.spec_host(),
                c.spec_jobs()[i].uuid,
            ),
        forall|i: int, j: int|
            0 <= i < c.spec_jobs().len() && 0 <= j < c.spec_jobs().len() && i != j ==> #[trigger] c.spec_jobs()[i].uuid
                != #[trigger] c.spec_jobs()[j].uuid,
        forall|i: int, j: int|
            0 <= i < c.spec_jobs().len() && 0 <= j < c.spec_jobs().len() && i != j ==> #[trigger] c.spec_jobs()[i].callback
                != #[trigger] c.spec_jobs()[j].callback,
        forall|i: int|
            0 <= i < c.spec_jobs().len() ==> has_job(c.spec_jobs(), #[trigger] c.spec_jobs()[i].uuid)
                && job_index(c.spec_jobs(), c.spec_jobs()[i].uuid) == i,
{
    let jobs = c.spec_jobs();
    assert forall|i: int, j: int| 0 <= i < jobs.len() && 0 <= j < jobs.len() && i != j implies jobs[i].uuid
        != jobs[j].uuid by {
        if i > j {
            assert(jobs[j].uuid != jobs[i].uuid);
        }
    }
    assert forall|i: int, j: int| 0 <= i < jobs.len() && 0 <= j < jobs.len() && i != j implies jobs[i].callback
        != jobs[j].callback by {
        if jobs[i].callback == jobs[j].callback {
            lemma_callback_injective(c.spec_host(), jobs[i].uuid, jobs[j].uuid);
        }
    }
    assert forall|i: int| 0 <= i < jobs.len() implies has_job(jobs, #[trigger] jobs[i].uuid) && job_index(
        jobs,
        jobs[i].uuid,
    ) == i by {
        c.lemma_index(i);
    }
}

/// A submission, accepted or not, leaves every job already registered in
/// place and unchanged.
pub proof fn lemma_submit_keeps_jobs(
    c0: Controller,
    c1: Controller,
    uuid: u128,
    post: (Seq<char>, Seq<Seq<char>>, i32),
    r: Result<JobView, SubmitError>,
    i: int,
)
    requires
        submit_outcome(c0, c1, uuid, post, r),
        0 <= i < c0.spec_jobs().len(),
    ensures
        i < c1.spec_jobs().len(),
        c1.spec_jobs()[i] == c0.spec_jobs()[i],
{
}

/// A state report, accepted or not, leaves a Failed or Completed job in
/// place and unchanged; so over any run of submissions and reports such a
/// job never changes again and gives its slots back at most once.
pub proof fn lemma_terminal_job_kept(
    c0: Controller,
    c1: Controller,
    uuid: u128,
    state: JobState,
    r: Result<(), UpdateError>,
    i: int,
)
    requires
        c0.wf(),
        update_outcome(c0, c1, uuid, state, r),
        0 <= i < c0.spec_jobs().len(),
        c0.spec_jobs()[i].state.is_terminal(),
    ensures
        c1.spec_jobs().len() == c0.spec_jobs().len(),
        c1.spec_jobs()[i] == c0.spec_jobs()[i],
{
    lemma_registry(&c0);
    let jobs = c0.spec_jobs();
    if has_job(jobs, uuid) {
        let k = job_index(jobs, uuid);
        if k != i && jobs[k].state != state && !jobs[k].state.is_terminal() {
            assert(c1.spec_jobs()[i] == jobs.update(k, with_state(jobs[k], state))[i]);
        }
    }
}

/// In every state that the controller's operations reach, the free slots
/// and the slots of the Submitted and Running jobs add up to the capacity:
/// the universe size less one.
pub proof fn lemma_slots_balance(c: &Controller)
    requires
        c.wf(),
    ensures
        c.spec_free_slots() + held(c.spec_jobs()) == c.spec_capacity(),
        0 <= c.spec_free_slots() <= c.spec_capacity(),
{
    lemma_held_nonneg(c.spec_jobs());
}

/// Reporting a job's state a second time, after the first report was
/// accepted, is accepted again and changes nothing.
pub proof fn lemma_report_twice(
    c0: Controller,
    c1: Controller,
    c2: Controller,
    uuid: u128,
    state: JobState,
    r1: Result<(), UpdateError>,
    r2: Result<(), UpdateError>,
)
    requires
        c0.wf(),
        c1.wf(),
        update_outcome(c0, c1, uuid, state, r1),
        r1 == Ok::<(), UpdateError>(()),
        update_outcome(c1, c2, uuid, state, r2),
    ensures
        r2 == Ok::<(), UpdateError>(()),
        c2.spec_jobs() == c1.spec_jobs(),
        c2.spec_free_slots() == c1.spec_free_slots(),
{
    let jobs0 = c0.spec_jobs();
    let jobs1 = c1.spec_jobs();
    let i = job_index(jobs0, uuid);
    assert(jobs1[i].uuid == uuid && jobs1[i].state == state);
    let k = job_index(jobs1, uuid);
    if k < i {
        assert(jobs1[k].uuid != jobs1[i].uuid);
    } else if k > i {
        assert(jobs1[i].uuid != jobs1[k].uuid);
    }
}

/// Once a job is Failed or Completed, a report of any other state is
/// turned away and leaves the registry and the free slots as they were.
pub proof fn lemma_terminal_is_final(
    c0: Controller,
    c1: Controller,
    uuid: u128,
    state: JobState,
    r: Result<(), UpdateError>,
)
    requires
        c0.wf(),
        has_job(c0.spec_jobs(), uuid),
        c0.spec_jobs()[job_index(c0.spec_jobs(), uuid)].state.is_terminal(),
        c0.spec_jobs()[job_index(c0.spec_jobs(), uuid)].state != state,
        update_outcome(c0, c1, uuid, state, r),
    ensures
        r == Err::<(), UpdateError>(UpdateError::FinalState),
        c1.spec_jobs() == c0.spec_jobs(),
        c1.spec_free_slots() == c0.spec_free_slots(),
{
}

/// A submission whose world size exceeds the free slots is turned away and
/// leaves the registry and the free slots as they were.
pub proof fn lemma_admission_rejects(
    c0: Controller,
    c1: Controller,
    uuid: u128,
    post: (Seq<char>, Seq<Seq<char>>, i32),
    r: Result<JobView, SubmitError>,
)
    requires
        c0.wf(),
        post.2 > c0.spec_free_slots(),
        submit_outcome(c0, c1, uuid, post, r),
    ensures
        r is Err,
        r->Err_0 is InsufficientSlots,
        c1.spec_jobs() == c0.spec_jobs(),
        c1.spec_free_slots() == c0.spec_free_slots(),
{
}

} // verus!
