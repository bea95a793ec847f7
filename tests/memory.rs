use wasm_mpi_rs::memory::{check, check_signed, read_i32, write_bytes, write_i32};

#[test]
fn check_accepts_ranges_inside_memory_only() {
    let mem = vec![0u8; 16];
    assert!(check(&mem, 12, 4, 1));
    assert!(!check(&mem, 13, 4, 1));
    assert!(check(&mem, 0, 1, 16));
    assert!(!check(&mem, 0, 1, 17));
    assert!(!check(&mem, 0, 0, 1));
    assert!(check(&mem, 16, 4, 0));
}

#[test]
fn signed_counts_below_zero_are_out_of_bounds() {
    let mem = vec![0u8; 16];
    assert!(!check_signed(&mem, 0, 4, -1));
    assert!(check_signed(&mem, 4, 4, 3));
    assert!(!check_signed(&mem, 4, 4, 4));
}

#[test]
fn i32_is_written_little_endian_and_reads_back() {
    let mut mem = vec![0u8; 8];
    assert!(write_i32(&mut mem, 2, 0x01020304));
    assert_eq!(mem, vec![0, 0, 4, 3, 2, 1, 0, 0]);
    assert_eq!(read_i32(&mem, 2), Some(0x01020304));
    assert!(write_i32(&mut mem, 4, -1));
    assert_eq!(read_i32(&mem, 4), Some(-1));
    assert_eq!(mem[4..8], [255, 255, 255, 255]);
}

#[test]
fn access_past_the_end_fails_and_leaves_memory() {
    let mut mem = vec![9u8; 6];
    assert!(!write_i32(&mut mem, 3, 5));
    assert_eq!(mem, vec![9u8; 6]);
    assert_eq!(read_i32(&mem, 3), None);
    assert!(!write_bytes(&mut mem, 4, b"abc"));
    assert_eq!(mem, vec![9u8; 6]);
}

#[test]
fn bytes_are_copied_in_place() {
    let mut mem = vec![0u8; 6];
    assert!(write_bytes(&mut mem, 1, b"abc"));
    assert_eq!(mem, vec![0, b'a', b'b', b'c', 0, 0]);
}
