use farm_registry::add_animal;
use farm_registry::create_farm;
use farm_registry::get_animal;
use farm_registry::remove_animal;
use farm_registry::Handle;
use farm_registry::RegistryError;

#[test]
fn register_then_lookup_returns_handle() {
    let mut farm = create_farm();
    let h = Handle { addr: 41 };
    add_animal(&mut farm, "cow".to_string(), h);
    assert_eq!(get_animal(&farm, "cow").unwrap(), h);
}

#[test]
fn lookup_is_repeatable_and_non_destructive() {
    let mut farm = create_farm();
    let h = Handle { addr: 7 };
    add_animal(&mut farm, "cow".to_string(), h);
    assert_eq!(get_animal(&farm, "cow").unwrap(), h);
    assert_eq!(get_animal(&farm, "cow").unwrap(), h);
    assert_eq!(get_animal(&farm, "cow").unwrap(), h);
}

#[test]
fn register_overwrites_and_never_frees_the_first_object() {
    // The host owns its objects; handles are plain indices into this store.
    let host_objects = vec!["first cow".to_string(), "second cow".to_string()];
    let h1 = Handle { addr: 0 };
    let h2 = Handle { addr: 1 };

    let mut farm = create_farm();
    add_animal(&mut farm, "cow".to_string(), h1);
    add_animal(&mut farm, "cow".to_string(), h2);
    assert_eq!(get_animal(&farm, "cow").unwrap(), h2);

    // The first handle still addresses valid host memory: the farm never
    // owned the object, so overwriting the mapping freed nothing.
    assert_eq!(host_objects[h1.addr as usize], "first cow");
}

#[test]
fn lookup_absent_name_is_not_found() {
    let farm = create_farm();
    assert!(matches!(get_animal(&farm, "cow"), Err(RegistryError::NotFound)));
}

#[test]
fn remove_absent_name_is_a_no_op() {
    let mut farm = create_farm();
    add_animal(&mut farm, "cow".to_string(), Handle { addr: 1 });
    remove_animal(&mut farm, "pig");
    assert_eq!(get_animal(&farm, "cow").unwrap(), Handle { addr: 1 });
}

#[test]
fn remove_then_lookup_is_not_found() {
    let mut farm = create_farm();
    add_animal(&mut farm, "cow".to_string(), Handle { addr: 1 });
    add_animal(&mut farm, "pig".to_string(), Handle { addr: 2 });
    remove_animal(&mut farm, "cow");
    assert!(matches!(get_animal(&farm, "cow"), Err(RegistryError::NotFound)));
    assert_eq!(get_animal(&farm, "pig").unwrap(), Handle { addr: 2 });
}

#[test]
fn farm_methods_match_boundary_operations() {
    let mut farm = farm_registry::Farm::new();
    farm.add_animal("hen".to_string(), Handle { addr: 9 });
    assert_eq!(farm.lookup("hen"), Some(Handle { addr: 9 }));
    farm.remove_animal("hen");
    assert_eq!(farm.lookup("hen"), None);
}
