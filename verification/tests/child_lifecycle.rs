use mayastor_core::child_state::{
    project_status, ChildError, ChildIoError, ChildState, ChildStatus, CoreError, Reason,
};
use mayastor_core::err_store::{ErrRecord, IoErrorKind, NexusErrStore};
use mayastor_core::nexus_child::{
    Bdev, BdevHandle, ChildAction, ClaimOutcome, Descriptor, DestroyStep, ErrStoreOpts, IoStep,
    NexusChild, OpenStep, RebuildJob,
};

const NO_STORE: ErrStoreOpts = ErrStoreOpts { enable_err_store: false, err_store_size: 0 };

fn handle(id: u64) -> BdevHandle {
    BdevHandle { desc: Descriptor { id } }
}

fn child_of_size(num_blocks: u64, block_len: u32) -> NexusChild {
    let bdev = Bdev::new("nvme0n1".to_string(), num_blocks, block_len);
    assert!(bdev.is_some());
    NexusChild::new("nvmf://replica/0".to_string(), "nexus-1".to_string(), bdev)
}

fn open_granted(child: &mut NexusChild, parent_size: u64, id: u64) -> OpenStep {
    match child.open(parent_size, None, &NO_STORE) {
        OpenStep::Claim { bdev_name } => {
            assert_eq!(bdev_name, "nvme0n1");
            child.open(parent_size, Some(ClaimOutcome::Claimed(handle(id))), &NO_STORE)
        },
        done => done,
    }
}

fn job(progress: u32) -> RebuildJob {
    RebuildJob { nexus: "nexus-1".to_string(), progress }
}

#[test]
fn new_child_is_in_init_without_resources() {
    let mut child = child_of_size(2, 512);
    assert_eq!(child.status(), ChildState::Init);
    assert!(!child.can_rw());
    assert!(child.get_descriptor().is_err());
    assert!(matches!(child.get_dev(), Err(ChildError::ChildClosed {})));
    assert_eq!(child.name(), "nvmf://replica/0");
    assert_eq!(child.parent(), "nexus-1");
    assert!(child.take_actions().is_empty());
    assert!(child.err_store().is_none());
}

#[test]
fn bdev_size_must_fit() {
    assert!(Bdev::new("big".to_string(), u64::MAX, 2).is_none());
    let bdev = Bdev::new("b".to_string(), 3, 4096).unwrap();
    assert_eq!(bdev.size_in_bytes(), 12288);
    assert_eq!(bdev.num_blocks(), 3);
    assert_eq!(bdev.block_len(), 4096);
    assert_eq!(bdev.name(), "b");
}

#[test]
fn open_asks_for_the_claim_and_leaves_the_child_alone() {
    let mut child = child_of_size(2, 512);
    assert!(matches!(
        child.open(1024, None, &NO_STORE),
        OpenStep::Claim { bdev_name } if bdev_name == "nvme0n1"
    ));
    assert_eq!(child.status(), ChildState::Init);
    assert!(child.take_actions().is_empty());
}

#[test]
fn open_child_has_all_its_resources() {
    let mut child = child_of_size(2, 512);
    match open_granted(&mut child, 1024, 7) {
        OpenStep::Done(Ok(name)) => assert_eq!(name, "nvmf://replica/0"),
        other => panic!("unexpected {:?}", other),
    }
    assert_eq!(child.status(), ChildState::Open);
    assert!(child.can_rw());
    assert_eq!(child.get_descriptor().unwrap(), Descriptor { id: 7 });
    let (bdev, hdl) = child.get_dev().unwrap();
    assert_eq!(bdev.name(), "nvme0n1");
    assert_eq!(*hdl, handle(7));
    assert_eq!(child.take_actions(), vec![ChildAction::SaveState]);
}

#[test]
fn close_then_status_is_closed_and_close_is_idempotent() {
    let mut child = child_of_size(2, 512);
    open_granted(&mut child, 1024, 7);
    child.take_actions();
    assert_eq!(child.close(), ChildState::Closed);
    assert_eq!(child.status(), ChildState::Closed);
    assert!(child.get_descriptor().is_err());
    assert_eq!(
        child.take_actions(),
        vec![
            ChildAction::ReleaseClaim,
            ChildAction::DropHandle(handle(7)),
            ChildAction::DropDescriptor(Descriptor { id: 7 }),
            ChildAction::SaveState,
        ]
    );
    assert_eq!(child.close(), ChildState::Closed);
    assert_eq!(child.status(), ChildState::Closed);
    assert_eq!(child.take_actions(), vec![ChildAction::ReleaseClaim, ChildAction::SaveState]);
}

#[test]
fn open_close_open_is_observed_as_open_closed_open() {
    let mut child = child_of_size(2, 512);
    assert!(matches!(open_granted(&mut child, 1024, 1), OpenStep::Done(Ok(_))));
    assert_eq!(child.status(), ChildState::Open);
    child.close();
    assert_eq!(child.status(), ChildState::Closed);
    assert!(matches!(open_granted(&mut child, 1024, 2), OpenStep::Done(Ok(_))));
    assert_eq!(child.status(), ChildState::Open);
    assert_eq!(child.get_descriptor().unwrap(), Descriptor { id: 2 });
}

#[test]
fn offline_and_online_are_close_and_open() {
    let mut child = child_of_size(2, 512);
    open_granted(&mut child, 1024, 1);
    child.offline();
    assert_eq!(child.status(), ChildState::Closed);
    assert!(matches!(child.online(1024, None, &NO_STORE), OpenStep::Claim { .. }));
    let step = child.online(1024, Some(ClaimOutcome::Claimed(handle(3))), &NO_STORE);
    assert!(matches!(step, OpenStep::Done(Ok(_))));
    assert_eq!(child.status(), ChildState::Open);
}

#[test]
fn size_boundary() {
    let mut child = child_of_size(2, 512);
    assert!(matches!(open_granted(&mut child, 1024, 1), OpenStep::Done(Ok(_))));
    let mut child = child_of_size(2, 512);
    match open_granted(&mut child, 1025, 1) {
        OpenStep::Done(Err(ChildError::ChildTooSmall { child_size, parent_size })) => {
            assert_eq!(child_size, 1024);
            assert_eq!(parent_size, 1025);
        },
        other => panic!("unexpected {:?}", other),
    }
    assert_eq!(child.status(), ChildState::ConfigInvalid);
}

#[test]
fn child_open_size_rejection() {
    let mut child = child_of_size(1024, 1);
    match child.open(2048, None, &NO_STORE) {
        OpenStep::Done(Err(e)) => {
            assert!(matches!(
                e,
                ChildError::ChildTooSmall { child_size: 1024, parent_size: 2048 }
            ));
            assert_eq!(e.to_string(), "Child is smaller than parent 1024 vs 2048");
        },
        other => panic!("unexpected {:?}", other),
    }
    assert_eq!(child.status(), ChildState::ConfigInvalid);
    assert_eq!(child.take_actions(), vec![ChildAction::SaveState]);
    // a child that was rejected can be opened by a smaller parent
    assert!(matches!(open_granted(&mut child, 512, 1), OpenStep::Done(Ok(_))));
    assert_eq!(child.status(), ChildState::Open);
}

#[test]
fn open_child_that_becomes_too_small_lets_go_of_its_resources() {
    let mut child = child_of_size(2, 512);
    open_granted(&mut child, 1024, 5);
    child.take_actions();
    assert!(matches!(
        child.open(4096, None, &NO_STORE),
        OpenStep::Done(Err(ChildError::ChildTooSmall { .. }))
    ));
    assert_eq!(child.status(), ChildState::ConfigInvalid);
    assert!(child.get_descriptor().is_err());
    assert_eq!(
        child.take_actions(),
        vec![
            ChildAction::ReleaseClaim,
            ChildAction::DropHandle(handle(5)),
            ChildAction::DropDescriptor(Descriptor { id: 5 }),
            ChildAction::SaveState,
        ]
    );
}

#[test]
fn open_on_an_open_child_claims_nothing() {
    let mut child = child_of_size(2, 512);
    open_granted(&mut child, 1024, 5);
    child.take_actions();
    match child.open(1024, None, &NO_STORE) {
        OpenStep::Done(Ok(name)) => assert_eq!(name, "nvmf://replica/0"),
        other => panic!("unexpected {:?}", other),
    }
    assert_eq!(child.status(), ChildState::Open);
    assert_eq!(child.get_descriptor().unwrap(), Descriptor { id: 5 });
    assert_eq!(child.take_actions(), vec![ChildAction::SaveState]);
}

#[test]
fn open_without_bdev_is_refused() {
    let mut child = NexusChild::new("c".to_string(), "n".to_string(), None);
    match child.open(1, None, &NO_STORE) {
        OpenStep::Done(Err(e)) => {
            assert!(matches!(e, ChildError::OpenWithoutBdev {}));
            assert_eq!(e.to_string(), "Opening child bdev without bdev pointer");
        },
        other => panic!("unexpected {:?}", other),
    }
    assert_eq!(child.status(), ChildState::Init);
}

#[test]
fn refused_claim_faults_the_child() {
    let mut child = child_of_size(2, 512);
    let refused = ClaimOutcome::Refused(CoreError::OpenBdev { errno: 16 });
    match child.open(1024, Some(refused), &NO_STORE) {
        OpenStep::Done(Err(ChildError::OpenChild { source })) => {
            assert!(matches!(source, CoreError::OpenBdev { errno: 16 }))
        },
        other => panic!("unexpected {:?}", other),
    }
    assert_eq!(child.status(), ChildState::Faulted(Reason::CantOpen));
    assert_eq!(child.take_actions(), vec![ChildAction::SaveState]);
    match open_granted(&mut child, 1024, 1) {
        OpenStep::Done(Err(e)) => {
            assert!(matches!(e, ChildError::ChildFaulted {}));
            assert_eq!(e.to_string(), "Child is faulted, it cannot be reopened");
        },
        other => panic!("unexpected {:?}", other),
    }
    assert_eq!(child.status(), ChildState::Faulted(Reason::CantOpen));
}

#[test]
fn claim_without_handle_is_released_and_faults_the_child() {
    let mut child = child_of_size(2, 512);
    let outcome = ClaimOutcome::NoHandle {
        desc: Descriptor { id: 9 },
        source: CoreError::GetIoChannel { name: "nvme0n1".to_string() },
    };
    match child.open(1024, Some(outcome), &NO_STORE) {
        OpenStep::Done(Err(ChildError::HandleCreate { source })) => {
            assert!(matches!(source, CoreError::GetIoChannel { .. }))
        },
        other => panic!("unexpected {:?}", other),
    }
    assert_eq!(child.status(), ChildState::Faulted(Reason::CantOpen));
    assert!(child.get_descriptor().is_err());
    assert_eq!(
        child.take_actions(),
        vec![
            ChildAction::ReleaseClaim,
            ChildAction::DropDescriptor(Descriptor { id: 9 }),
            ChildAction::SaveState,
        ]
    );
}

#[test]
fn fault_releases_and_records_the_reason() {
    let mut child = child_of_size(2, 512);
    open_granted(&mut child, 1024, 4);
    child.take_actions();
    child.fault(None);
    assert_eq!(child.status(), ChildState::Faulted(Reason::Undefined));
    assert!(child.get_descriptor().is_err());
    assert_eq!(child.take_actions().last(), Some(&ChildAction::SaveState));
    let mut child = child_of_size(2, 512);
    child.fault(Some(Reason::CantOpen));
    assert_eq!(child.status(), ChildState::Faulted(Reason::CantOpen));
}

#[test]
fn fault_then_rebuild_status() {
    let mut child = child_of_size(2, 512);
    open_granted(&mut child, 1024, 4);
    assert_eq!(child.external_status(None), ChildStatus::Online);
    child.out_of_sync(true);
    assert_eq!(child.status(), ChildState::Faulted(Reason::OutOfSync));
    let rebuild = job(10);
    assert_eq!(child.external_status(Some(&rebuild)), ChildStatus::Degraded);
    assert!(child.rebuilding(Some(&rebuild)));
    assert_eq!(child.external_status(None), ChildStatus::Faulted);
    assert!(!child.rebuilding(None));
}

#[test]
fn out_of_sync_false_changes_nothing() {
    let mut child = child_of_size(2, 512);
    open_granted(&mut child, 1024, 4);
    child.take_actions();
    child.out_of_sync(false);
    assert_eq!(child.status(), ChildState::Open);
    assert!(child.take_actions().is_empty());
    child.out_of_sync(true);
    child.out_of_sync(false);
    assert_eq!(child.status(), ChildState::Faulted(Reason::OutOfSync));
}

#[test]
fn status_projection() {
    for rebuilding in [false, true] {
        assert_eq!(project_status(ChildState::Open, rebuilding), ChildStatus::Online);
        assert_eq!(project_status(ChildState::Init, rebuilding), ChildStatus::Faulted);
        assert_eq!(project_status(ChildState::Closed, rebuilding), ChildStatus::Faulted);
        assert_eq!(project_status(ChildState::ConfigInvalid, rebuilding), ChildStatus::Faulted);
        assert_eq!(
            project_status(ChildState::Faulted(Reason::CantOpen), rebuilding),
            ChildStatus::Faulted
        );
        assert_eq!(
            project_status(ChildState::Faulted(Reason::Undefined), rebuilding),
            ChildStatus::Faulted
        );
    }
    assert_eq!(project_status(ChildState::Faulted(Reason::OutOfSync), true), ChildStatus::Degraded);
    assert_eq!(project_status(ChildState::Faulted(Reason::OutOfSync), false), ChildStatus::Faulted);
}

#[test]
fn rebuild_progress_is_minus_one_without_a_job() {
    let child = child_of_size(2, 512);
    assert_eq!(child.get_rebuild_progress(None), -1);
    assert_eq!(child.get_rebuild_progress(Some(&job(0))), 0);
    assert_eq!(child.get_rebuild_progress(Some(&job(42))), 42);
    assert_eq!(child.get_rebuild_progress(Some(&job(100))), 100);
}

#[test]
fn destroy_is_refused_unless_closed() {
    let mut child = child_of_size(2, 512);
    assert!(matches!(
        child.destroy::<String>(None),
        DestroyStep::Refused(ChildError::ChildNotClosed {})
    ));
    open_granted(&mut child, 1024, 1);
    assert!(matches!(
        child.destroy::<String>(Some(Ok(()))),
        DestroyStep::Refused(ChildError::ChildNotClosed {})
    ));
    child.fault(None);
    assert!(matches!(child.destroy::<String>(None), DestroyStep::Refused(_)));
    let mut child = child_of_size(2, 512);
    child.close();
    match child.destroy::<String>(None) {
        DestroyStep::DestroyBdev { name } => assert_eq!(name, "nvmf://replica/0"),
        other => panic!("unexpected {:?}", other),
    }
    assert!(matches!(child.destroy::<String>(Some(Ok(()))), DestroyStep::Done(Ok(()))));
    assert!(matches!(
        child.destroy(Some(Err("busy".to_string()))),
        DestroyStep::Done(Err(e)) if e == "busy"
    ));
    let mut child = NexusChild::new("c".to_string(), "n".to_string(), None);
    child.close();
    assert_eq!(child.take_actions(), vec![ChildAction::SaveState]);
    assert!(matches!(child.destroy::<String>(None), DestroyStep::Done(Ok(()))));
}

#[test]
fn transfers_need_a_handle() {
    let mut child = child_of_size(2, 512);
    match child.write_at(0, None, 1) {
        IoStep::Done(Err(ChildIoError::InvalidDescriptor { name })) => {
            assert_eq!(name, "nvmf://replica/0")
        },
        other => panic!("unexpected {:?}", other),
    }
    assert!(matches!(
        child.read_at(0, Some(Ok(512)), 1),
        IoStep::Done(Err(ChildIoError::InvalidDescriptor { .. }))
    ));
    open_granted(&mut child, 1024, 3);
    assert!(matches!(
        child.write_at(512, None, 1),
        IoStep::Submit { handle: h, offset: 512 } if h == handle(3)
    ));
    assert!(matches!(child.write_at(512, Some(Ok(512)), 1), IoStep::Done(Ok(512))));
    assert!(matches!(
        child.read_at(8, None, 1),
        IoStep::Submit { handle: h, offset: 8 } if h == handle(3)
    ));
    assert!(matches!(child.read_at(8, Some(Ok(16)), 1), IoStep::Done(Ok(16))));
    match child.write_at(512, Some(Err(CoreError::WriteFailed { offset: 512, len: 512 })), 1) {
        IoStep::Done(Err(ChildIoError::WriteError { source, name })) => {
            assert_eq!(name, "nvmf://replica/0");
            assert!(matches!(source, CoreError::WriteFailed { offset: 512, len: 512 }));
        },
        other => panic!("unexpected {:?}", other),
    }
    match child.read_at(0, Some(Err(CoreError::ReadFailed { offset: 0, len: 4 })), 1) {
        IoStep::Done(Err(ChildIoError::ReadError { source, name })) => {
            assert_eq!(name, "nvmf://replica/0");
            assert!(matches!(source, CoreError::ReadFailed { offset: 0, len: 4 }));
        },
        other => panic!("unexpected {:?}", other),
    }
    child.close();
    assert!(matches!(
        child.write_at(0, None, 1),
        IoStep::Done(Err(ChildIoError::InvalidDescriptor { .. }))
    ));
}

#[test]
fn error_history_follows_the_options_at_open() {
    let mut child = child_of_size(2, 512);
    let opts = ErrStoreOpts { enable_err_store: true, err_store_size: 2 };
    child.open(1024, Some(ClaimOutcome::Claimed(handle(1))), &opts);
    assert_eq!(child.err_store().unwrap().capacity(), 2);
    child.record_error(IoErrorKind::Write, 10);
    child.record_error(IoErrorKind::Read, 11);
    child.record_error(IoErrorKind::Read, 12);
    let store = child.err_store().unwrap();
    assert_eq!(store.len(), 2);
    assert_eq!(store.get(0), Some(ErrRecord { kind: IoErrorKind::Read, timestamp: 11 }));
    assert_eq!(store.get(1), Some(ErrRecord { kind: IoErrorKind::Read, timestamp: 12 }));
    child.close();
    assert_eq!(child.err_store().unwrap().len(), 2);
    child.open(1024, Some(ClaimOutcome::Claimed(handle(2))), &opts);
    assert_eq!(child.err_store().unwrap().len(), 0);
    child.close();
    child.open(1024, Some(ClaimOutcome::Claimed(handle(3))), &NO_STORE);
    assert!(child.err_store().is_none());
    child.record_error(IoErrorKind::Write, 13);
    assert!(child.err_store().is_none());
}

#[test]
fn error_history_is_a_ring() {
    let mut store = NexusErrStore::new(3);
    assert_eq!(store.capacity(), 3);
    assert_eq!(store.len(), 0);
    assert_eq!(store.get(0), None);
    for t in 0..7u64 {
        store.add_record(IoErrorKind::Write, t);
        let len = store.len() as u64;
        assert_eq!(len, (t + 1).min(3));
        for i in 0..len {
            let expected = t + 1 - len + i;
            assert_eq!(
                store.get(i as usize),
                Some(ErrRecord { kind: IoErrorKind::Write, timestamp: expected })
            );
        }
        assert_eq!(store.get(len as usize), None);
    }
    let mut none = NexusErrStore::new(0);
    none.add_record(IoErrorKind::InvalidDescriptor, 1);
    assert_eq!(none.len(), 0);
}

#[test]
fn texts_of_states_and_reasons() {
    assert_eq!(Reason::Undefined.to_string(), "Unknown");
    assert_eq!(Reason::OutOfSync.to_string(), "The child is out of sync and requires a rebuild");
    assert_eq!(Reason::CantOpen.to_string(), "Failed to open the child bdev");
    assert_eq!(ChildState::Init.to_string(), "Init");
    assert_eq!(ChildState::ConfigInvalid.to_string(), "Config parameters are invalid");
    assert_eq!(ChildState::Open.to_string(), "child is open");
    assert_eq!(ChildState::Closed.to_string(), "closed");
    assert_eq!(
        ChildState::Faulted(Reason::CantOpen).to_string(),
        "faulted with reason Failed to open the child bdev"
    );
    assert_eq!(ChildState::Faulted(Reason::OutOfSync).name(), "Faulted(OutOfSync)");
    assert_eq!(ChildStatus::Online.to_string(), "online");
    assert_eq!(ChildStatus::Degraded.to_string(), "degraded");
    assert_eq!(ChildStatus::Faulted.to_string(), "faulted");
    assert_eq!(ChildError::ChildNotClosed {}.to_string(), "Child is not closed");
    assert_eq!(
        ChildError::ChildTooSmall { child_size: 0, parent_size: u64::MAX }.to_string(),
        "Child is smaller than parent 0 vs 18446744073709551615"
    );
}

#[test]
fn child_describes_itself() {
    let mut child = child_of_size(2048, 512);
    assert_eq!(child.to_string(), "nvmf://replica/0: Init/Init, blk_cnt: 2048, blk_size: 512\n");
    child.fault(Some(Reason::OutOfSync));
    assert_eq!(
        child.to_string(),
        "nvmf://replica/0: Faulted(OutOfSync)/Faulted(OutOfSync), blk_cnt: 2048, blk_size: 512\n"
    );
    let child = NexusChild::new("c".to_string(), "n".to_string(), None);
    assert_eq!(child.to_string(), "c: state Init/Init\n");
}

#[test]
fn failed_transfers_are_recorded_in_the_error_history() {
    let mut child = child_of_size(2, 512);
    let opts = ErrStoreOpts { enable_err_store: true, err_store_size: 4 };
    child.open(1024, Some(ClaimOutcome::Claimed(handle(1))), &opts);
    assert!(matches!(child.write_at(0, None, 20), IoStep::Submit { .. }));
    assert!(matches!(child.write_at(0, Some(Ok(4)), 21), IoStep::Done(Ok(4))));
    assert_eq!(child.err_store().unwrap().len(), 0);
    let failed = Some(Err(CoreError::WriteFailed { offset: 0, len: 4 }));
    assert!(matches!(child.write_at(0, failed, 22), IoStep::Done(Err(_))));
    let failed = Some(Err(CoreError::ReadFailed { offset: 8, len: 4 }));
    assert!(matches!(child.read_at(8, failed, 23), IoStep::Done(Err(_))));
    child.close();
    assert!(matches!(child.read_at(8, None, 24), IoStep::Done(Err(_))));
    let store = child.err_store().unwrap();
    assert_eq!(store.len(), 3);
    assert_eq!(store.get(0), Some(ErrRecord { kind: IoErrorKind::Write, timestamp: 22 }));
    assert_eq!(store.get(1), Some(ErrRecord { kind: IoErrorKind::Read, timestamp: 23 }));
    assert_eq!(
        store.get(2),
        Some(ErrRecord { kind: IoErrorKind::InvalidDescriptor, timestamp: 24 })
    );
}
