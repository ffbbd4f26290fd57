use io_surface::SurfaceProperties;
use io_surface::SurfaceRegistry;
use io_surface::UploadError;

fn props_2x3() -> SurfaceProperties {
    // Two rows with a stride of three bytes: a six-byte backing buffer.
    SurfaceProperties {
        width: 2,
        height: 2,
        bytes_per_row: 3,
        bytes_per_element: 1,
        is_global: false,
    }
}

fn snapshot(reg: &mut SurfaceRegistry, id: u32) -> Vec<u8> {
    let seed = reg.lock(id);
    let bytes = reg.read_buffer(id);
    reg.unlock(id, seed);
    bytes
}

#[test]
fn fresh_surface_buffer_is_zeroed() {
    let mut reg = SurfaceRegistry::new();
    let s = io_surface::new(&mut reg, &props_2x3());
    assert_eq!(reg.height(s.get_id()), 2);
    assert_eq!(reg.bytes_per_row(s.get_id()), 3);
    assert_eq!(snapshot(&mut reg, s.get_id()), vec![0u8; 6]);
    s.destroy(&mut reg);
}

#[test]
fn upload_overwrites_the_buffer_byte_for_byte() {
    let mut reg = SurfaceRegistry::new();
    let s = io_surface::new(&mut reg, &props_2x3());
    let data = vec![10u8, 20, 30, 40, 50, 60];
    s.upload(&mut reg, &data).expect("matching length must succeed");
    assert_eq!(snapshot(&mut reg, s.get_id()), data);
    s.destroy(&mut reg);
}

#[test]
fn upload_takes_the_stride_aligned_size_not_the_packed_one() {
    // The buffer is height * bytes_per_row, which exceeds the packed
    // width * bytes_per_element image size.
    let mut reg = SurfaceRegistry::new();
    let s = io_surface::new(&mut reg, &props_2x3());
    let packed = vec![1u8, 2, 3, 4];
    assert_eq!(
        s.upload(&mut reg, &packed),
        Err(UploadError { expected: 6, actual: 4 })
    );
    s.destroy(&mut reg);
}

#[test]
fn mismatched_upload_fails_and_mutates_nothing() {
    let mut reg = SurfaceRegistry::new();
    let s = io_surface::new(&mut reg, &props_2x3());
    let id = s.get_id();
    s.upload(&mut reg, &[7u8; 6]).expect("matching length must succeed");
    let before = snapshot(&mut reg, id);
    let err = s.upload(&mut reg, &[1u8; 7]).unwrap_err();
    assert_eq!(err, UploadError { expected: 6, actual: 7 });
    assert_eq!(snapshot(&mut reg, id), before);
    let err = s.upload(&mut reg, &[]).unwrap_err();
    assert_eq!(err, UploadError { expected: 6, actual: 0 });
    assert_eq!(snapshot(&mut reg, id), before);
    s.destroy(&mut reg);
}

#[test]
fn upload_releases_the_lock_on_both_outcomes() {
    // After a failed upload the lock is free again: acquiring it succeeds
    // and hands out the unchanged mutation seed. After a successful upload
    // the lock is free too, and the seed has moved on by one.
    let mut reg = SurfaceRegistry::new();
    let s = io_surface::new(&mut reg, &props_2x3());
    let id = s.get_id();
    let seed0 = reg.lock(id);
    reg.unlock(id, seed0);
    assert!(s.upload(&mut reg, &[1u8; 5]).is_err());
    let seed1 = reg.lock(id);
    reg.unlock(id, seed1);
    assert_eq!(seed1, seed0);
    s.upload(&mut reg, &[2u8; 6]).expect("matching length must succeed");
    let seed2 = reg.lock(id);
    reg.unlock(id, seed2);
    assert_eq!(seed2, seed0 + 1);
    s.destroy(&mut reg);
}

#[test]
fn zero_row_surface_takes_only_the_empty_upload() {
    let mut reg = SurfaceRegistry::new();
    let s = io_surface::new(
        &mut reg,
        &SurfaceProperties {
            width: 0,
            height: 0,
            bytes_per_row: 0,
            bytes_per_element: 1,
            is_global: false,
        },
    );
    let id = s.get_id();
    assert_eq!(snapshot(&mut reg, id), Vec::<u8>::new());
    s.upload(&mut reg, &[]).expect("the empty buffer takes the empty upload");
    assert_eq!(
        s.upload(&mut reg, &[1u8]),
        Err(UploadError { expected: 0, actual: 1 })
    );
    s.destroy(&mut reg);
}

#[test]
fn uploads_through_two_handles_reach_the_same_buffer() {
    let mut reg = SurfaceRegistry::new();
    let s = io_surface::new(&mut reg, &props_2x3());
    let t = s.clone_handle(&mut reg);
    s.upload(&mut reg, &[3u8; 6]).expect("matching length must succeed");
    assert_eq!(snapshot(&mut reg, t.get_id()), vec![3u8; 6]);
    t.upload(&mut reg, &[4u8; 6]).expect("matching length must succeed");
    assert_eq!(snapshot(&mut reg, s.get_id()), vec![4u8; 6]);
    t.destroy(&mut reg);
    s.destroy(&mut reg);
}
