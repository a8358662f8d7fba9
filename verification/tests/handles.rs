use fshandle::driver::{Driver, Error, File, Mode, Volume};
use fshandle::guard::AccessGuard;
use fshandle::handle::{ControllerHandle, ControllerTrait};
use fshandle::ramdrv::{RamDriver, RamError};

fn controller(free: Option<u32>) -> ControllerHandle<RamDriver> {
    ControllerHandle::new(RamDriver::new(1000, 8, 125, free))
}

#[test]
fn guard_second_acquisition_fails_without_corruption() {
    let mut g = AccessGuard::new();
    assert!(!g.held());
    assert!(g.try_acquire());
    assert!(g.held());
    // A second concurrent acquisition attempt fails fast and changes nothing.
    assert!(!g.try_acquire());
    assert!(g.held());
    g.release();
    assert!(!g.held());
    assert!(g.try_acquire());
}

#[test]
fn volume_accessors_report_driver_metadata() {
    let mut ctrl = controller(Some(42));
    let vol = ctrl.volume(0).unwrap();
    assert_eq!(vol.num_blocks().unwrap(), 1000);
    assert_eq!(vol.blocks_per_cluster().unwrap(), 8);
    assert_eq!(vol.cluster_count().unwrap(), 125);
    assert_eq!(vol.free_clusters_count().unwrap(), 42);
}

#[test]
fn free_clusters_count_is_zero_when_untracked() {
    let mut ctrl = controller(None);
    let vol = ctrl.volume(0).unwrap();
    // An untracked free-cluster count reads as 0; it is never a failure.
    assert_eq!(vol.free_clusters_count().unwrap(), 0);
}

#[test]
fn bad_volume_index_is_the_drivers_own_error() {
    let mut ctrl = controller(None);
    match ctrl.volume(7) {
        Err(Error::Driver(RamError::BadVolumeIndex)) => {}
        _ => panic!("expected the driver's bad-index error, unchanged"),
    }
}

#[test]
fn create_write_release_then_read_back() {
    let mut ctrl = controller(None);
    let mut vol = ctrl.volume(0).unwrap();
    let root = vol.root(&mut ctrl).unwrap();
    let mut fh = root
        .file(&mut ctrl, &mut vol, "A.TXT", Mode::ReadWriteCreate)
        .unwrap();
    let data = [7u8, 1, 2, 3, 4, 5, 6, 7, 8, 9];
    let written = fh.write(&mut ctrl, &mut vol, &data).unwrap();
    assert_eq!(written, 10);
    assert_eq!(fh.size(), 10);
    fh.release(&mut ctrl, &mut vol);
    root.release(&mut ctrl, &mut vol);
    assert_eq!(ctrl.release_failure_count(), 0);

    let root = vol.root(&mut ctrl).unwrap();
    let mut fh = root
        .file(&mut ctrl, &mut vol, "A.TXT", Mode::ReadOnly)
        .unwrap();
    assert_eq!(fh.size(), 10);
    let mut buffer = vec![0u8; 10];
    let n = fh.read(&mut ctrl, &mut vol, &mut buffer).unwrap();
    assert_eq!(n, 10);
    assert_eq!(buffer, data.to_vec());
    fh.release(&mut ctrl, &mut vol);
    root.release(&mut ctrl, &mut vol);
    assert_eq!(ctrl.release_failure_count(), 0);
}

#[test]
fn two_volume_handles_from_one_controller_both_work() {
    let mut ctrl = controller(None);
    let vol_a = ctrl.volume(0).unwrap();
    let mut vol_b = ctrl.volume(0).unwrap();
    // Operations through distinct handles of the same controller are
    // serialized by exclusive access; neither corrupts the other.
    assert_eq!(vol_a.num_blocks().unwrap(), 1000);
    let root = vol_b.root(&mut ctrl).unwrap();
    root.release(&mut ctrl, &mut vol_b);
    assert_eq!(vol_a.num_blocks().unwrap(), 1000);
}

#[test]
fn failed_file_release_is_swallowed_and_counted() {
    let mut driver = RamDriver::new(1000, 8, 125, None);
    driver.fail_file_releases();
    let mut ctrl = ControllerHandle::new(driver);
    let mut vol = ctrl.volume(0).unwrap();
    let root = vol.root(&mut ctrl).unwrap();
    let fh = root
        .file(&mut ctrl, &mut vol, "LOG.TXT", Mode::ReadWriteCreate)
        .unwrap();
    assert_eq!(ctrl.release_failure_count(), 0);
    // The teardown path has no error channel: the failure is only counted.
    fh.release(&mut ctrl, &mut vol);
    assert_eq!(ctrl.release_failure_count(), 1);
    root.release(&mut ctrl, &mut vol);
    assert_eq!(ctrl.release_failure_count(), 1);
}

#[test]
fn failed_directory_release_is_swallowed_and_counted() {
    let mut driver = RamDriver::new(1000, 8, 125, None);
    driver.fail_directory_releases();
    let mut ctrl = ControllerHandle::new(driver);
    let mut vol = ctrl.volume(0).unwrap();
    let root = vol.root(&mut ctrl).unwrap();
    root.release(&mut ctrl, &mut vol);
    assert_eq!(ctrl.release_failure_count(), 1);
}

#[test]
fn write_root_file_matches_the_explicit_sequence() {
    let data = [5u8, 4, 3, 2, 1];

    let mut composite = controller(None);
    let n = composite
        .write_root_file(0, "B.TXT", Mode::ReadWriteCreate, &data)
        .unwrap();
    assert_eq!(n, 5);

    let mut explicit = controller(None);
    let mut vol = explicit.volume(0).unwrap();
    let root = vol.root(&mut explicit).unwrap();
    let mut fh = root
        .file(&mut explicit, &mut vol, "B.TXT", Mode::ReadWriteCreate)
        .unwrap();
    let m = fh.write(&mut explicit, &mut vol, &data).unwrap();
    fh.release(&mut explicit, &mut vol);
    root.release(&mut explicit, &mut vol);
    assert_eq!(n, m);

    // Both controllers now hold the same file, and neither left a token
    // open: a fresh read-only open succeeds on each and yields the data.
    for ctrl in [&mut composite, &mut explicit] {
        let mut vol = ctrl.volume(0).unwrap();
        let root = vol.root(ctrl).unwrap();
        let mut fh = root.file(ctrl, &mut vol, "B.TXT", Mode::ReadOnly).unwrap();
        let mut buffer = vec![0u8; 5];
        assert_eq!(fh.read(ctrl, &mut vol, &mut buffer).unwrap(), 5);
        assert_eq!(buffer, data.to_vec());
        fh.release(ctrl, &mut vol);
        root.release(ctrl, &mut vol);
        assert_eq!(ctrl.release_failure_count(), 0);
    }
}

#[test]
fn write_root_file_releases_tokens_on_error_paths() {
    let mut ctrl = controller(None);
    // Opening an absent file read-only fails inside the composite.
    match ctrl.write_root_file(0, "NO.TXT", Mode::ReadOnly, &[1u8]) {
        Err(Error::Driver(RamError::NotFound)) => {}
        _ => panic!("expected the driver's not-found error"),
    }
    // The intermediate directory token was still released: a later
    // composite call works from a clean state.
    assert_eq!(
        ctrl.write_root_file(0, "C.TXT", Mode::ReadWriteCreate, &[1u8]).unwrap(),
        1
    );
}

#[test]
fn size_reflects_the_most_recent_open_read_or_write() {
    let mut ctrl = controller(None);
    let mut vol = ctrl.volume(0).unwrap();
    let root = vol.root(&mut ctrl).unwrap();
    let mut fh = root
        .file(&mut ctrl, &mut vol, "S.TXT", Mode::ReadWriteCreate)
        .unwrap();
    assert_eq!(fh.size(), 0);
    fh.write(&mut ctrl, &mut vol, &[1u8, 2, 3]).unwrap();
    assert_eq!(fh.size(), 3);
    fh.write(&mut ctrl, &mut vol, &[4u8]).unwrap();
    assert_eq!(fh.size(), 4);
    fh.release(&mut ctrl, &mut vol);

    let mut fh = root
        .file(&mut ctrl, &mut vol, "S.TXT", Mode::ReadOnly)
        .unwrap();
    let mut buffer = vec![0u8; 2];
    fh.read(&mut ctrl, &mut vol, &mut buffer).unwrap();
    // Reading moves the cursor but never the length.
    assert_eq!(fh.size(), 4);
    fh.release(&mut ctrl, &mut vol);
    root.release(&mut ctrl, &mut vol);
}

#[test]
fn append_mode_continues_at_the_end() {
    let mut ctrl = controller(None);
    assert_eq!(
        ctrl.write_root_file(0, "D.TXT", Mode::ReadWriteCreate, &[1u8, 2]).unwrap(),
        2
    );
    let mut vol = ctrl.volume(0).unwrap();
    let root = vol.root(&mut ctrl).unwrap();
    let mut fh = root
        .file(&mut ctrl, &mut vol, "D.TXT", Mode::ReadWriteAppend)
        .unwrap();
    assert_eq!(fh.size(), 2);
    assert_eq!(fh.write(&mut ctrl, &mut vol, &[3u8, 4]).unwrap(), 2);
    assert_eq!(fh.size(), 4);
    fh.release(&mut ctrl, &mut vol);

    let mut fh = root
        .file(&mut ctrl, &mut vol, "D.TXT", Mode::ReadOnly)
        .unwrap();
    let mut buffer = vec![0u8; 8];
    // At end-of-data the read returns fewer bytes than the buffer holds.
    assert_eq!(fh.read(&mut ctrl, &mut vol, &mut buffer).unwrap(), 4);
    assert_eq!(&buffer[..4], &[1, 2, 3, 4]);
    fh.release(&mut ctrl, &mut vol);
    root.release(&mut ctrl, &mut vol);
}

#[test]
fn truncate_mode_empties_an_existing_file() {
    let mut ctrl = controller(None);
    ctrl.write_root_file(0, "T.TXT", Mode::ReadWriteCreate, &[9u8, 9, 9]).unwrap();
    let mut vol = ctrl.volume(0).unwrap();
    let root = vol.root(&mut ctrl).unwrap();
    let fh = root
        .file(&mut ctrl, &mut vol, "T.TXT", Mode::ReadWriteCreateOrTruncate)
        .unwrap();
    assert_eq!(fh.size(), 0);
    fh.release(&mut ctrl, &mut vol);
    root.release(&mut ctrl, &mut vol);
}

#[test]
fn driver_refusals_pass_through_unchanged() {
    let mut ctrl = controller(None);
    let mut vol = ctrl.volume(0).unwrap();
    let root = vol.root(&mut ctrl).unwrap();

    match root.file(&mut ctrl, &mut vol, "NO.TXT", Mode::ReadOnly) {
        Err(Error::Driver(RamError::NotFound)) => {}
        _ => panic!("expected not-found"),
    }

    let fh = root
        .file(&mut ctrl, &mut vol, "E.TXT", Mode::ReadWriteCreate)
        .unwrap();
    fh.release(&mut ctrl, &mut vol);
    match root.file(&mut ctrl, &mut vol, "E.TXT", Mode::ReadWriteCreate) {
        Err(Error::Driver(RamError::AlreadyExists)) => {}
        _ => panic!("expected already-exists"),
    }

    let mut fh = root
        .file(&mut ctrl, &mut vol, "E.TXT", Mode::ReadOnly)
        .unwrap();
    match fh.write(&mut ctrl, &mut vol, &[1u8]) {
        Err(Error::Driver(RamError::NotWritable)) => {}
        _ => panic!("expected not-writable"),
    }
    fh.release(&mut ctrl, &mut vol);
    root.release(&mut ctrl, &mut vol);
    assert_eq!(ctrl.release_failure_count(), 0);
}

#[test]
fn driver_can_be_used_directly_under_the_contract() {
    // The handle layer works over anything satisfying the driver contract;
    // the in-memory driver honors it standalone as well.
    let mut drv = RamDriver::new(16, 1, 4, Some(2));
    let mut vol: Volume = drv.get_volume(0).unwrap();
    let dir = drv.open_root_dir(&vol).unwrap();
    let mut file = drv
        .open_file_in_dir(&mut vol, &dir, "X.TXT", Mode::ReadWriteCreate)
        .unwrap();
    assert_eq!(drv.write(&mut vol, &mut file, &[1u8, 2, 3]).unwrap(), 3);
    assert_eq!(file.length, 3);
    drv.close_file(&vol, file).unwrap();
    drv.close_dir(&vol, dir).unwrap();
}

#[test]
fn direct_driver_errors_for_stale_and_bad_state() {
    let mut drv = RamDriver::new(16, 1, 4, None);
    let mut vol: Volume = drv.get_volume(0).unwrap();

    // A token the driver never handed out is stale.
    let mut ghostless = File { token: 999, offset: 0, length: 0 };
    let mut buffer = vec![0u8; 4];
    match drv.read(&mut vol, &mut ghostless, &mut buffer) {
        Err(RamError::StaleToken) => {}
        _ => panic!("expected stale-token"),
    }

    // A cursor past the length is refused before anything moves.
    let dir = drv.open_root_dir(&vol).unwrap();
    let file = drv
        .open_file_in_dir(&mut vol, &dir, "Y.TXT", Mode::ReadWriteCreate)
        .unwrap();
    let mut skewed = File { token: file.token, offset: 5, length: 2 };
    match drv.read(&mut vol, &mut skewed, &mut buffer) {
        Err(RamError::BadCursor) => {}
        _ => panic!("expected bad-cursor"),
    }
    assert_eq!(skewed.offset, 5);

    // A provoked close failure still consumes the token.
    drv.fail_file_releases();
    match drv.close_file(&vol, file) {
        Err(RamError::CloseRefused) => {}
        _ => panic!("expected the provoked close failure"),
    }
    drv.close_dir(&vol, dir).unwrap();
}
