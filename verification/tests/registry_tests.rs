use std::cell::RefCell;
use std::rc::Rc;

use farm_registry::native_speak;
use farm_registry::CapabilityEntry;
use farm_registry::CapabilityTable;
use farm_registry::Handle;
use farm_registry::RegistryError;
use farm_registry::RegistryStore;

/// An entry that logs every call it receives and echoes the payload.
struct CountingEcho {
    log: Rc<RefCell<Vec<(u64, String)>>>,
}

impl CapabilityEntry for CountingEcho {
    fn call(&self, target: Handle, payload: &str) -> Result<String, String> {
        self.log.borrow_mut().push((target.addr, payload.to_string()));
        Ok(format!("echo:{}", payload))
    }
}

/// An entry that always reports failure.
struct FailingEntry;

impl CapabilityEntry for FailingEntry {
    fn call(&self, _target: Handle, _payload: &str) -> Result<String, String> {
        Err("boom".to_string())
    }
}

fn echo_store() -> (RegistryStore<CountingEcho>, Rc<RefCell<Vec<(u64, String)>>>) {
    let log = Rc::new(RefCell::new(Vec::new()));
    (RegistryStore::new(), log)
}

#[test]
fn speak_scenario_dispatches_and_is_repeatable() {
    let (mut store, log) = echo_store();
    let mut table = CapabilityTable::new();
    table.bind("speak".to_string(), CountingEcho { log: log.clone() });
    let token = store.create_registry(table);

    let h = Handle { addr: 12 };
    store.register_object(token, "cow".to_string(), h).unwrap();

    let r = store.invoke_capability(token, "cow", "speak", "moo");
    assert_eq!(r.unwrap(), "echo:moo");
    assert_eq!(log.borrow().as_slice(), &[(12, "moo".to_string())]);

    // A second identical invocation succeeds: lookup never consumed the entry.
    let r = store.invoke_capability(token, "cow", "speak", "moo");
    assert_eq!(r.unwrap(), "echo:moo");
    assert_eq!(
        log.borrow().as_slice(),
        &[(12, "moo".to_string()), (12, "moo".to_string())]
    );
}

#[test]
fn unregistered_object_is_object_not_found_and_no_entry_runs() {
    let (mut store, log) = echo_store();
    let mut table = CapabilityTable::new();
    table.bind("speak".to_string(), CountingEcho { log: log.clone() });
    let token = store.create_registry(table);

    match store.invoke_capability(token, "pig", "speak", "oink") {
        Err(RegistryError::ObjectNotFound(name)) => assert_eq!(name, "pig"),
        other => panic!("expected ObjectNotFound, got {:?}", other),
    }
    assert!(log.borrow().is_empty());
}

#[test]
fn unknown_capability_is_reported_and_mutates_nothing() {
    let (mut store, log) = echo_store();
    let mut table = CapabilityTable::new();
    table.bind("speak".to_string(), CountingEcho { log: log.clone() });
    let token = store.create_registry(table);
    store
        .register_object(token, "cow".to_string(), Handle { addr: 3 })
        .unwrap();

    match store.invoke_capability(token, "cow", "fly", "up") {
        Err(RegistryError::UnknownCapability(name)) => assert_eq!(name, "fly"),
        other => panic!("expected UnknownCapability, got {:?}", other),
    }
    assert!(log.borrow().is_empty());

    // The registry is untouched: the object is still there and dispatchable.
    assert_eq!(
        store.invoke_capability(token, "cow", "speak", "moo").unwrap(),
        "echo:moo"
    );
}

#[test]
fn entry_failure_is_wrapped_not_swallowed() {
    let mut store: RegistryStore<FailingEntry> = RegistryStore::new();
    let mut table = CapabilityTable::new();
    table.bind("speak".to_string(), FailingEntry);
    let token = store.create_registry(table);
    store
        .register_object(token, "cow".to_string(), Handle { addr: 1 })
        .unwrap();

    match store.invoke_capability(token, "cow", "speak", "moo") {
        Err(RegistryError::CapabilityInvocationFailed(reason)) => assert_eq!(reason, "boom"),
        other => panic!("expected CapabilityInvocationFailed, got {:?}", other),
    }
}

#[test]
fn every_operation_after_destroy_is_use_after_destroy() {
    let (mut store, log) = echo_store();
    let mut table = CapabilityTable::new();
    table.bind("speak".to_string(), CountingEcho { log: log.clone() });
    let token = store.create_registry(table);
    store
        .register_object(token, "cow".to_string(), Handle { addr: 5 })
        .unwrap();

    store.destroy_registry(token).unwrap();

    assert!(matches!(
        store.destroy_registry(token),
        Err(RegistryError::UseAfterDestroy)
    ));
    assert!(matches!(
        store.register_object(token, "pig".to_string(), Handle { addr: 6 }),
        Err(RegistryError::UseAfterDestroy)
    ));
    assert!(matches!(
        store.unregister_object(token, "cow"),
        Err(RegistryError::UseAfterDestroy)
    ));
    assert!(matches!(
        store.invoke_capability(token, "cow", "speak", "moo"),
        Err(RegistryError::UseAfterDestroy)
    ));
    assert!(matches!(
        native_speak(&store, token, "cow", "moo"),
        Err(RegistryError::UseAfterDestroy)
    ));
    assert!(log.borrow().is_empty());
}

#[test]
fn unregister_absent_name_is_not_found() {
    let (mut store, log) = echo_store();
    let mut table = CapabilityTable::new();
    table.bind("speak".to_string(), CountingEcho { log: log.clone() });
    let token = store.create_registry(table);

    assert!(matches!(
        store.unregister_object(token, "cow"),
        Err(RegistryError::NotFound)
    ));
}

#[test]
fn unregister_removes_the_mapping() {
    let (mut store, log) = echo_store();
    let mut table = CapabilityTable::new();
    table.bind("speak".to_string(), CountingEcho { log: log.clone() });
    let token = store.create_registry(table);
    store
        .register_object(token, "cow".to_string(), Handle { addr: 2 })
        .unwrap();

    store.unregister_object(token, "cow").unwrap();
    assert!(matches!(
        store.invoke_capability(token, "cow", "speak", "moo"),
        Err(RegistryError::ObjectNotFound(_))
    ));
}

#[test]
fn registries_in_one_store_are_independent() {
    let mut store: RegistryStore<FailingEntry> = RegistryStore::new();
    let mut table_a = CapabilityTable::new();
    table_a.bind("speak".to_string(), FailingEntry);
    let mut table_b = CapabilityTable::new();
    table_b.bind("speak".to_string(), FailingEntry);

    let token_a = store.create_registry(table_a);
    let token_b = store.create_registry(table_b);
    assert_ne!(token_a, token_b);

    store
        .register_object(token_a, "cow".to_string(), Handle { addr: 1 })
        .unwrap();
    assert!(matches!(
        store.invoke_capability(token_b, "cow", "speak", "moo"),
        Err(RegistryError::ObjectNotFound(_))
    ));

    store.destroy_registry(token_a).unwrap();
    assert!(matches!(
        store.unregister_object(token_b, "cow"),
        Err(RegistryError::NotFound)
    ));
}

#[test]
fn native_speak_dispatches_the_speak_capability() {
    let (mut store, log) = echo_store();
    let mut table = CapabilityTable::new();
    table.bind("speak".to_string(), CountingEcho { log: log.clone() });
    let token = store.create_registry(table);
    store
        .register_object(token, "cow".to_string(), Handle { addr: 8 })
        .unwrap();

    assert_eq!(native_speak(&store, token, "cow", "moo").unwrap(), "echo:moo");
    assert_eq!(log.borrow().as_slice(), &[(8, "moo".to_string())]);
    assert!(matches!(
        native_speak(&store, token, "pig", "oink"),
        Err(RegistryError::ObjectNotFound(_))
    ));
}

#[test]
fn complete_invocation_passes_success_through_and_wraps_failure() {
    assert_eq!(
        farm_registry::complete_invocation(Ok("moo".to_string())).unwrap(),
        "moo"
    );
    match farm_registry::complete_invocation(Err("boom".to_string())) {
        Err(RegistryError::CapabilityInvocationFailed(reason)) => assert_eq!(reason, "boom"),
        other => panic!("expected CapabilityInvocationFailed, got {:?}", other),
    }
}

#[test]
fn capability_table_resolve_reports_unknown_names() {
    let mut table: CapabilityTable<FailingEntry> = CapabilityTable::new();
    table.bind("speak".to_string(), FailingEntry);
    assert!(table.resolve("speak").is_ok());
    match table.resolve("fly") {
        Err(RegistryError::UnknownCapability(name)) => assert_eq!(name, "fly"),
        Err(other) => panic!("expected UnknownCapability, got {:?}", other),
        Ok(_) => panic!("expected UnknownCapability, got an entry"),
    }
}
