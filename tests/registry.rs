use uwb_dispatch::registry::{DispatchError, Handle, Registry};
use uwb_dispatch::session::{session_state_byte, session_type_from_host, SessionState, SessionType};
use uwb_dispatch::status::{byte_result_helper, UwbError};

use std::cell::RefCell;
use std::collections::HashMap;

/// A protocol manager that keeps sessions in memory.
struct FakeManager {
    chip: String,
    sessions: RefCell<HashMap<u32, (SessionType, SessionState)>>,
}

impl FakeManager {
    fn new(chip: &str) -> Self {
        FakeManager { chip: chip.to_string(), sessions: RefCell::new(HashMap::new()) }
    }

    fn session_init(&self, id: u32, t: SessionType) -> Result<(), UwbError> {
        let mut s = self.sessions.borrow_mut();
        if s.contains_key(&id) {
            return Err(UwbError::DuplicatedSessionId);
        }
        s.insert(id, (t, SessionState::SessionStateInit));
        Ok(())
    }

    fn session_get_state(&self, id: u32) -> Result<SessionState, UwbError> {
        self.sessions.borrow().get(&id).map(|e| e.1).ok_or(UwbError::BadParameters)
    }
}

fn chips(ids: &[&str]) -> Vec<(String, Result<FakeManager, UwbError>)> {
    ids.iter().map(|id| (id.to_string(), Ok(FakeManager::new(id)))).collect()
}

#[test]
fn lookup_resolves_each_declared_chip() {
    let mut reg = Registry::new(false);
    let h = reg.create(chips(&["A", "B"])).unwrap();
    assert_eq!(reg.lookup(h, "A").unwrap().chip, "A");
    assert_eq!(reg.lookup(h, "B").unwrap().chip, "B");
    assert_eq!(reg.get(h).unwrap().len(), 2);
}

#[test]
fn registry_isolation_between_dispatchers() {
    let mut reg = Registry::new(false);
    let a = reg.create(chips(&["A1", "A2"])).unwrap();
    let b = reg.create(chips(&["B1"])).unwrap();
    assert_ne!(a, b);
    assert_eq!(reg.lookup(a, "B1").err(), Some(DispatchError::UnknownChip));
    assert_eq!(reg.lookup(b, "A1").err(), Some(DispatchError::UnknownChip));
    assert_eq!(reg.lookup(b, "A2").err(), Some(DispatchError::UnknownChip));
    assert_eq!(reg.lookup(a, "A2").unwrap().chip, "A2");
}

#[test]
fn unknown_chip_after_successful_calls() {
    let mut reg = Registry::new(false);
    let h = reg.create(chips(&["A"])).unwrap();
    assert!(reg.lookup(h, "A").is_ok());
    assert_eq!(reg.lookup(h, "Z").err(), Some(DispatchError::UnknownChip));
    assert!(reg.lookup(h, "A").is_ok());
    assert_eq!(reg.lookup(h, "").err(), Some(DispatchError::UnknownChip));
}

#[test]
fn second_destroy_is_rejected() {
    let mut reg = Registry::new(false);
    let h = reg.create(chips(&["A"])).unwrap();
    let d = reg.destroy(h).unwrap();
    assert_eq!(d.len(), 1);
    assert_eq!(d.chip_id_at(0), "A");
    assert_eq!(reg.destroy(h).err(), Some(DispatchError::InvalidHandle));
    assert!(!reg.is_live(h));
}

#[test]
fn invalid_handle_never_resolves() {
    let mut reg = Registry::new(false);
    assert_eq!(reg.lookup(Handle::invalid(), "A").err(), Some(DispatchError::InvalidHandle));
    let _h = reg.create(chips(&["A"])).unwrap();
    assert_eq!(reg.lookup(Handle::invalid(), "A").err(), Some(DispatchError::InvalidHandle));
    assert_eq!(reg.destroy(Handle::invalid()).err(), Some(DispatchError::InvalidHandle));
}

#[test]
fn stale_handle_detected_after_slot_reuse() {
    let mut reg = Registry::new(false);
    let old = reg.create(chips(&["A"])).unwrap();
    assert!(reg.destroy(old).is_ok());
    let new = reg.create(chips(&["A"])).unwrap();
    assert_eq!(new.slot, old.slot);
    assert_ne!(new.generation, old.generation);
    assert_eq!(reg.lookup(old, "A").err(), Some(DispatchError::InvalidHandle));
    assert!(reg.lookup(new, "A").is_ok());
}

#[test]
fn partial_construction_is_rolled_back() {
    let mut reg = Registry::new(false);
    let list = vec![
        ("A".to_string(), Ok(FakeManager::new("A"))),
        ("B".to_string(), Ok(FakeManager::new("B"))),
        ("C".to_string(), Err(UwbError::Unknown)),
    ];
    assert_eq!(reg.create(list).err(), Some(DispatchError::Protocol(UwbError::Unknown)));
    assert!(!reg.any_live());
    for slot in 0..3 {
        for generation in 0..3 {
            assert!(reg.lookup(Handle { slot, generation }, "A").is_err());
        }
    }
}

#[test]
fn first_failure_is_reported() {
    let mut reg: Registry<FakeManager> = Registry::new(false);
    let list = vec![
        ("A".to_string(), Err(UwbError::Timeout)),
        ("B".to_string(), Err(UwbError::Unknown)),
    ];
    assert_eq!(reg.create(list).err(), Some(DispatchError::Protocol(UwbError::Timeout)));
}

#[test]
fn repeated_chip_id_keeps_last_manager() {
    let mut reg = Registry::new(false);
    let list = vec![
        ("A".to_string(), Ok(FakeManager::new("first"))),
        ("B".to_string(), Ok(FakeManager::new("B"))),
        ("A".to_string(), Ok(FakeManager::new("second"))),
    ];
    let h = reg.create(list).unwrap();
    assert_eq!(reg.get(h).unwrap().len(), 2);
    assert_eq!(reg.lookup(h, "A").unwrap().chip, "second");
    assert_eq!(reg.lookup(h, "B").unwrap().chip, "B");
}

#[test]
fn created_handles_are_never_zero() {
    let mut reg = Registry::new(false);
    for _ in 0..3 {
        let h = reg.create(chips(&["A"])).unwrap();
        assert!(h.generation >= 1);
        assert_ne!(h, Handle::invalid());
        assert!(reg.destroy(h).is_ok());
    }
    assert!(!reg.is_live(Handle { slot: 0, generation: 0 }));
}

#[test]
fn single_instance_refuses_second_dispatcher() {
    let mut reg = Registry::new(true);
    let h = reg.create(chips(&["A"])).unwrap();
    assert_eq!(reg.create(chips(&["B"])).err(), Some(DispatchError::AlreadyExists));
    assert!(reg.destroy(h).is_ok());
    assert!(reg.create(chips(&["B"])).is_ok());
}

#[test]
fn empty_chip_set_gives_dispatcher_without_chips() {
    let mut reg: Registry<FakeManager> = Registry::new(false);
    let h = reg.create(Vec::new()).unwrap();
    assert!(reg.is_live(h));
    assert_eq!(reg.lookup(h, "A").err(), Some(DispatchError::UnknownChip));
}

#[test]
fn lookups_of_two_chips_coexist() {
    let mut reg = Registry::new(false);
    let h = reg.create(chips(&["A", "B"])).unwrap();
    let a = reg.lookup(h, "A").unwrap();
    let b = reg.lookup(h, "B").unwrap();
    assert!(a.session_init(1, SessionType::FiraRangingSession).is_ok());
    assert!(b.session_init(1, SessionType::FiraRangingSession).is_ok());
    assert_eq!(a.session_init(1, SessionType::FiraRangingSession), Err(UwbError::DuplicatedSessionId));
}

#[test]
fn session_scenario_on_one_chip() {
    let mut reg = Registry::new(false);
    let h = reg.create(chips(&["chip0"])).unwrap();
    let init = reg.lookup(h, "chip0").map_err(|_| UwbError::BadParameters).and_then(|m| {
        m.session_init(7, session_type_from_host(0)?)
    });
    assert_eq!(byte_result_helper(init, "session_init"), 0);
    let state = reg.lookup(h, "chip0").map_err(|_| UwbError::BadParameters).and_then(|m| m.session_get_state(7));
    let byte = session_state_byte(state);
    assert_ne!(byte, -1);
    assert_eq!(byte, 0);
    assert!(reg.destroy(h).is_ok());
    assert_eq!(reg.lookup(h, "chip0").err(), Some(DispatchError::InvalidHandle));
}

#[test]
fn with_manager_runs_only_on_resolved_chip() {
    let mut reg = Registry::new(false);
    let h = reg.create(chips(&["A"])).unwrap();
    assert_eq!(reg.with_manager(h, "A", |m| m.chip.clone()), Ok("A".to_string()));
    let mut called = false;
    assert_eq!(
        reg.with_manager(h, "B", |_| {
            called = true;
        }),
        Err(DispatchError::UnknownChip)
    );
    assert!(!called);
    assert!(reg.destroy(h).is_ok());
    assert_eq!(reg.with_manager(h, "A", |m| m.chip.len()), Err(DispatchError::InvalidHandle));
}
