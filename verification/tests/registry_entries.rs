use sandbox_manager::{Error, Registry};

#[test]
fn new_registry_is_empty() {
    let registry = Registry::new();
    assert_eq!(registry.len(), 0);
    assert!(!registry.contains("sb1"));
}

#[test]
fn registered_id_resolves_to_its_address() {
    let mut registry = Registry::new();
    assert_eq!(registry.register("sb1".to_string(), "unix:///run/s1/shim.sock".to_string()), Ok(()));
    assert!(registry.contains("sb1"));
    assert_eq!(registry.resolve("sb1"), Ok("unix:///run/s1/shim.sock".to_string()));
    assert_eq!(registry.len(), 1);
}

#[test]
fn second_registration_is_refused_and_the_first_stays() {
    let mut registry = Registry::new();
    assert_eq!(registry.register("sb1".to_string(), "first".to_string()), Ok(()));
    assert_eq!(
        registry.register("sb1".to_string(), "second".to_string()),
        Err(Error::AlreadyExists("sb1".to_string()))
    );
    assert_eq!(registry.resolve("sb1"), Ok("first".to_string()));
    assert_eq!(registry.len(), 1);
}

#[test]
fn third_registration_is_refused_like_the_second() {
    let mut registry = Registry::new();
    assert_eq!(registry.register("sb1".to_string(), "first".to_string()), Ok(()));
    for address in ["second", "third", "first"] {
        assert_eq!(
            registry.register("sb1".to_string(), address.to_string()),
            Err(Error::AlreadyExists("sb1".to_string()))
        );
    }
    assert_eq!(registry.resolve("sb1"), Ok("first".to_string()));
}

#[test]
fn unknown_id_is_not_found() {
    let registry = Registry::new();
    assert_eq!(registry.resolve("sb1"), Err(Error::NotFound("sb1".to_string())));
}

#[test]
fn unknown_id_is_not_found_beside_others() {
    let mut registry = Registry::new();
    assert_eq!(registry.register("sb1".to_string(), "a".to_string()), Ok(()));
    assert_eq!(registry.resolve("sb2"), Err(Error::NotFound("sb2".to_string())));
    assert_eq!(registry.resolve("sb"), Err(Error::NotFound("sb".to_string())));
    assert_eq!(registry.resolve("sb11"), Err(Error::NotFound("sb11".to_string())));
    assert_eq!(registry.resolve(""), Err(Error::NotFound(String::new())));
}

#[test]
fn distinct_ids_register_in_either_order() {
    let mut forward = Registry::new();
    assert_eq!(forward.register("a".to_string(), "sock-a".to_string()), Ok(()));
    assert_eq!(forward.register("b".to_string(), "sock-b".to_string()), Ok(()));
    let mut backward = Registry::new();
    assert_eq!(backward.register("b".to_string(), "sock-b".to_string()), Ok(()));
    assert_eq!(backward.register("a".to_string(), "sock-a".to_string()), Ok(()));
    for registry in [&forward, &backward] {
        assert_eq!(registry.len(), 2);
        assert_eq!(registry.resolve("a"), Ok("sock-a".to_string()));
        assert_eq!(registry.resolve("b"), Ok("sock-b".to_string()));
    }
}

#[test]
fn many_ids_lose_no_entry() {
    let mut registry = Registry::new();
    for n in 0..200 {
        assert_eq!(registry.register(format!("sb{}", n), format!("sock{}", n)), Ok(()));
    }
    assert_eq!(registry.len(), 200);
    for n in 0..200 {
        assert_eq!(registry.resolve(&format!("sb{}", n)), Ok(format!("sock{}", n)));
    }
}

#[test]
fn two_ids_may_share_an_address() {
    let mut registry = Registry::new();
    assert_eq!(registry.register("a".to_string(), "sock".to_string()), Ok(()));
    assert_eq!(registry.register("b".to_string(), "sock".to_string()), Ok(()));
    assert_eq!(registry.resolve("a"), registry.resolve("b"));
}
