use aiva::templates::VMTemplate;
use aiva::{AivaError, Operation, RuntimeInfo, StopOutcome, VMConfig, VMInstance, VMOrchestrator, VMState};

fn base_config() -> VMConfig {
    VMTemplate::python3_uv().base_config
}

fn instance(id: u128, name: &str, state: VMState, updated_at: i64) -> VMInstance {
    VMInstance {
        id,
        name: name.to_string(),
        state,
        config: base_config(),
        runtime: RuntimeInfo::empty(),
        created_at: 0,
        updated_at,
    }
}

fn registry(vms: Vec<VMInstance>) -> VMOrchestrator {
    VMOrchestrator::from_instances(vms).unwrap()
}

fn states(o: &VMOrchestrator) -> Vec<(u128, VMState, i64)> {
    o.list_vms().iter().map(|v| (v.id, v.state, v.updated_at)).collect()
}

#[test]
fn create_then_get_reports_platform_state() {
    let mut o = VMOrchestrator::new();
    let id = o.begin_create("alice".to_string(), base_config()).unwrap();
    assert_eq!(o.get_vm(id).unwrap().state, VMState::Creating);
    let mut from_platform = instance(id, "alice", VMState::Stopped, 5);
    from_platform.runtime.pid = Some(42);
    o.finish_create(id, Ok(from_platform)).unwrap();
    let got = o.get_vm(id).unwrap();
    assert_eq!(got.state, VMState::Stopped);
    assert_eq!(got.runtime.pid, Some(42));
    let other = o.begin_create("bob".to_string(), base_config()).unwrap();
    assert_ne!(other, id);
    assert_eq!(o.list_vms().len(), 2);
}

#[test]
fn platform_instance_keeps_registry_id() {
    let mut o = VMOrchestrator::new();
    o.insert_creating(7, "alice".to_string(), base_config(), 100).unwrap();
    o.finish_create(7, Ok(instance(99, "alice", VMState::Running, 100))).unwrap();
    assert_eq!(o.get_vm(7).unwrap().state, VMState::Running);
    assert!(o.get_vm(99).is_none());
}

#[test]
fn failed_create_removes_entry_and_returns_error() {
    let mut o = VMOrchestrator::new();
    o.insert_creating(1, "keep".to_string(), base_config(), 0).unwrap();
    o.insert_creating(2, "gone".to_string(), base_config(), 0).unwrap();
    let r = o.finish_create(2, Err(AivaError::NotImplemented("x".to_string())));
    assert!(matches!(r, Err(AivaError::NotImplemented(m)) if m == "x"));
    assert!(o.get_vm(2).is_none());
    assert_eq!(o.get_vm(1).unwrap().name, "keep");
}

#[test]
fn insert_refuses_taken_id() {
    let mut o = VMOrchestrator::new();
    o.insert_creating(3, "a".to_string(), base_config(), 0).unwrap();
    let r = o.insert_creating(3, "b".to_string(), base_config(), 0);
    assert!(matches!(r, Err(AivaError::VMError { .. })));
    assert_eq!(o.list_vms().len(), 1);
}

#[test]
fn new_instance_starts_creating_and_empty() {
    let mut o = VMOrchestrator::new();
    o.insert_creating(5, "alice".to_string(), base_config(), 1234).unwrap();
    let v = o.get_vm(5).unwrap();
    assert_eq!(v.state, VMState::Creating);
    assert_eq!((v.created_at, v.updated_at), (1234, 1234));
    assert!(v.runtime.pid.is_none() && v.runtime.tap_device.is_none());
}

#[test]
fn start_refused_outside_stopped_and_registry_unchanged() {
    for s in [VMState::Creating, VMState::Running, VMState::Paused, VMState::Stopping, VMState::Error] {
        let o = registry(vec![instance(1, "a", s, 10)]);
        let before = states(&o);
        match o.check_start(1) {
            Err(AivaError::InvalidStateTransition(m)) => {
                assert_eq!(m, format!("Cannot start VM in state {:?}", s));
            }
            other => panic!("unexpected {:?}", other.map(|v| v.state)),
        }
        assert_eq!(states(&o), before);
    }
    let o = registry(vec![instance(1, "a", VMState::Stopped, 10)]);
    assert!(o.check_start(1).is_ok());
}

#[test]
fn stop_refused_outside_running_or_paused() {
    for s in [VMState::Creating, VMState::Stopping, VMState::Stopped, VMState::Error] {
        let mut o = registry(vec![instance(1, "a", s, 10)]);
        let before = states(&o);
        match o.begin_stop_at(1, 500) {
            Err(AivaError::InvalidStateTransition(m)) => {
                assert_eq!(m, format!("Cannot stop VM in state {:?}", s));
            }
            other => panic!("unexpected {:?}", other),
        }
        assert_eq!(states(&o), before);
    }
}

#[test]
fn delete_refused_unless_stopped() {
    for s in [VMState::Creating, VMState::Running, VMState::Paused, VMState::Stopping, VMState::Error] {
        let mut o = registry(vec![instance(1, "a", s, 10)]);
        let before = states(&o);
        match o.remove_stopped(1) {
            Err(AivaError::InvalidStateTransition(m)) => {
                assert_eq!(m, format!("Cannot delete VM in state {:?}", s));
            }
            other => panic!("unexpected {:?}", other),
        }
        assert_eq!(states(&o), before);
    }
    let mut o = registry(vec![instance(1, "a", VMState::Stopped, 10), instance(2, "b", VMState::Running, 10)]);
    o.remove_stopped(1).unwrap();
    assert!(o.get_vm(1).is_none());
    assert!(o.get_vm(2).is_some());
}

#[test]
fn operations_on_unknown_id_report_not_found() {
    let mut o = VMOrchestrator::new();
    let id: u128 = 0x0123_4567_89ab_cdef_0123_4567_89ab_cdef;
    for r in [o.check_operation(id, Operation::Start).map(|_| ()), o.require_vm(id).map(|_| ())] {
        match r {
            Err(AivaError::VMError { vm_name, state, message }) => {
                assert_eq!(vm_name, "01234567-89ab-cdef-0123-456789abcdef");
                assert_eq!(state, VMState::Stopped);
                assert_eq!(message, "VM not found");
            }
            other => panic!("unexpected {:?}", other),
        }
    }
    assert!(o.update_vm_state(id, VMState::Running).is_err());
    assert!(o.force_reset_vm_state(id, VMState::Stopped).is_err());
}

#[test]
fn stop_settles_after_success() {
    let mut o = registry(vec![instance(1, "a", VMState::Running, 10)]);
    o.begin_stop_at(1, 100).unwrap();
    assert_eq!(o.get_vm(1).unwrap().state, VMState::Stopping);
    assert_eq!(o.get_vm(1).unwrap().updated_at, 100);
    assert!(o.finish_stop_at(1, StopOutcome::Completed, 200).is_ok());
    assert_eq!(o.get_vm(1).unwrap().state, VMState::Stopped);
    assert_eq!(o.get_vm(1).unwrap().updated_at, 200);
}

#[test]
fn stop_settles_after_platform_error() {
    let mut o = registry(vec![instance(1, "a", VMState::Paused, 10)]);
    o.begin_stop_at(1, 100).unwrap();
    let err = AivaError::PlatformError {
        platform: "mock".to_string(),
        message: "boom".to_string(),
        recoverable: false,
    };
    match o.finish_stop_at(1, StopOutcome::Failed(err), 200) {
        Err(AivaError::PlatformError { platform, message, .. }) => {
            assert_eq!(platform, "mock");
            assert_eq!(message, "boom");
        }
        other => panic!("unexpected {:?}", other),
    }
    assert_eq!(o.get_vm(1).unwrap().state, VMState::Stopped);
}

#[test]
fn stop_settles_after_timeout() {
    let mut o = registry(vec![instance(1, "a", VMState::Running, 10)]);
    o.begin_stop(1).unwrap();
    match o.finish_stop(1, StopOutcome::TimedOut) {
        Err(AivaError::PlatformError { platform, message, recoverable }) => {
            assert_eq!(platform, "timeout");
            assert_eq!(message, "VM stop operation timed out after 30 seconds");
            assert!(recoverable);
        }
        other => panic!("unexpected {:?}", other),
    }
    assert_eq!(o.get_vm(1).unwrap().state, VMState::Stopped);
    assert_eq!(aiva::vm::STOP_TIMEOUT_SECS, 30);
}

#[test]
fn reset_stuck_changes_exactly_the_old_transitional_ones() {
    let now: i64 = 10_000_000;
    let mut o = registry(vec![
        instance(1, "old-creating", VMState::Creating, now - 121_000),
        instance(2, "fresh-stopping", VMState::Stopping, now - 120_999),
        instance(3, "old-running", VMState::Running, now - 999_999),
        instance(4, "old-stopping", VMState::Stopping, now - 500_000),
        instance(5, "edge-creating", VMState::Creating, now - 120_000),
        instance(6, "future-creating", VMState::Creating, now + 50_000),
    ]);
    let reset = o.reset_stuck_vms_at(now);
    assert_eq!(reset, vec![(1, VMState::Creating), (4, VMState::Stopping)]);
    let s = states(&o);
    assert_eq!(s[0], (1, VMState::Stopped, now));
    assert_eq!(s[1], (2, VMState::Stopping, now - 120_999));
    assert_eq!(s[2], (3, VMState::Running, now - 999_999));
    assert_eq!(s[3], (4, VMState::Stopped, now));
    assert_eq!(s[4], (5, VMState::Creating, now - 120_000));
    assert_eq!(s[5], (6, VMState::Creating, now + 50_000));
}

#[test]
fn reset_stuck_is_noop_on_recent_vms() {
    let now: i64 = 5_000_000;
    let mut o = registry(vec![
        instance(1, "a", VMState::Creating, now),
        instance(2, "b", VMState::Stopping, now - 60_000),
    ]);
    let before = states(&o);
    assert!(o.reset_stuck_vms_at(now).is_empty());
    assert_eq!(states(&o), before);
}

#[test]
fn reset_stuck_with_clock_resets_ancient_vm() {
    let mut o = registry(vec![instance(1, "a", VMState::Creating, 0)]);
    assert_eq!(o.reset_stuck_vms(), vec![(1, VMState::Creating)]);
    assert_eq!(o.get_vm(1).unwrap().state, VMState::Stopped);
}

#[test]
fn execute_requires_running() {
    let o = registry(vec![instance(1, "a", VMState::Paused, 0), instance(2, "b", VMState::Running, 0)]);
    match o.check_execute(1) {
        Err(AivaError::VMError { vm_name, state, message }) => {
            assert_eq!(vm_name, "a");
            assert_eq!(state, VMState::Paused);
            assert_eq!(message, "VM must be running to execute commands");
        }
        other => panic!("unexpected {:?}", other.map(|v| v.id)),
    }
    assert_eq!(o.check_execute(2).unwrap().name, "b");
}

#[test]
fn update_and_force_reset_overwrite_state() {
    let mut o = registry(vec![instance(1, "a", VMState::Error, 0), instance(2, "b", VMState::Running, 0)]);
    o.update_vm_state_at(1, VMState::Running, 77).unwrap();
    assert_eq!(states(&o)[0], (1, VMState::Running, 77));
    assert_eq!(states(&o)[1], (2, VMState::Running, 0));
    o.force_reset_vm_state(2, VMState::Stopped).unwrap();
    assert_eq!(o.get_vm(2).unwrap().state, VMState::Stopped);
}

#[test]
fn lookup_by_name_takes_first_match() {
    let o = registry(vec![
        instance(1, "x", VMState::Running, 0),
        instance(2, "alice", VMState::Stopped, 0),
        instance(3, "alice", VMState::Running, 0),
    ]);
    assert_eq!(o.get_vm_by_name("alice").unwrap().id, 2);
    assert!(o.get_vm_by_name("nobody").is_none());
}

#[test]
fn seeding_refuses_duplicate_ids() {
    let r = VMOrchestrator::from_instances(vec![instance(1, "a", VMState::Running, 0), instance(1, "b", VMState::Running, 0)]);
    assert!(matches!(r, Err(AivaError::SerializationError(_))));
}

#[test]
fn create_alice_on_empty_registry_succeeds_with_full_record() {
    let mut o = VMOrchestrator::new();
    let mut config = base_config();
    config.cpus = 2;
    config.memory_mb = 4096;
    let id = o.begin_create("alice".to_string(), config).unwrap();
    let v = o.get_vm(id).unwrap();
    assert_eq!((v.name.as_str(), v.state, v.config.cpus, v.config.memory_mb), ("alice", VMState::Creating, 2, 4096));
    assert_eq!(v.created_at, v.updated_at);
    assert!(v.runtime.pid.is_none() && v.runtime.api_socket.is_none() && v.runtime.vsock_cid.is_none());
}

#[test]
fn id_clash_names_the_taken_id() {
    let mut o = VMOrchestrator::new();
    o.insert_creating(0x0123_4567_89ab_cdef_0123_4567_89ab_cdef, "a".to_string(), base_config(), 0).unwrap();
    match o.insert_creating(0x0123_4567_89ab_cdef_0123_4567_89ab_cdef, "b".to_string(), base_config(), 0) {
        Err(AivaError::VMError { vm_name, state, message }) => {
            assert_eq!(vm_name, "01234567-89ab-cdef-0123-456789abcdef");
            assert_eq!(state, VMState::Creating);
            assert_eq!(message, "VM id already in use");
        }
        other => panic!("unexpected {:?}", other),
    }
}

#[test]
fn clocked_stop_returns_platform_error() {
    let mut o = registry(vec![instance(1, "a", VMState::Running, 10)]);
    o.begin_stop(1).unwrap();
    let r = o.finish_stop(1, StopOutcome::Failed(AivaError::StorageError("disk".to_string())));
    assert!(matches!(r, Err(AivaError::StorageError(m)) if m == "disk"));
    assert_eq!(o.get_vm(1).unwrap().state, VMState::Stopped);
}
