use ruactor::{user_path, ActorError, ActorPath, InternalMessage, UserGuard};

#[test]
fn system_create_and_get() {
    let mut s: UserGuard<u32> = UserGuard::new();
    let path = user_path(&"main".to_string());
    assert_eq!(path.path(), "/user/main");
    assert_eq!(path.key(), "main");
    assert!(s.get_actor(&path).is_none());
    assert!(s.create_actor(&"main".to_string(), || 1).is_ok());
    assert_eq!(s.get_actor(&path), Some(&1));
    assert_eq!(s.num_actors(), 1);
}

#[test]
fn system_create_existing_fails() {
    let mut s: UserGuard<u32> = UserGuard::new();
    assert!(s.create_actor(&"main".to_string(), || 1).is_ok());
    let mut called = false;
    match s.create_actor(&"main".to_string(), || {
        called = true;
        2
    }) {
        Err(ActorError::Exists(p)) => assert_eq!(p.path(), "/user/main"),
        _ => panic!("expected Exists"),
    }
    assert!(!called);
    let path = user_path(&"main".to_string());
    assert_eq!(s.get_actor(&path), Some(&1));
}

#[test]
fn system_root_actor_stop() {
    let mut s: UserGuard<u32> = UserGuard::new();
    assert!(s.create_actor(&"main".to_string(), || 1).is_ok());
    let path = user_path(&"main".to_string());
    assert!(s.get_actor(&path).is_some());
    s.on_internal_message::<()>(InternalMessage::Terminate);
    s.on_internal_message::<()>(InternalMessage::Created);
    assert!(s.get_actor(&path).is_some());
    s.on_internal_message::<()>(InternalMessage::ChildTerminate(path.clone()));
    assert!(s.get_actor(&path).is_none());
}

#[test]
fn system_stop_actor_and_paths() {
    let mut s: UserGuard<u32> = UserGuard::new();
    let p = ActorPath::root(&"x".to_string()).child(&"y".to_string());
    assert_eq!(p.path(), "/x/y");
    assert_eq!(p.key(), "y");
    assert!(s.create_actor_path(p.clone(), || 5).is_ok());
    assert!(s.create_actor(&"a".to_string(), || 6).is_ok());
    let mut paths = s.paths();
    paths.sort();
    assert_eq!(paths, vec!["/user/a".to_string(), "/x/y".to_string()]);
    assert_eq!(s.stop_actor(&"/x/y".to_string()), Some(5));
    assert_eq!(s.stop_actor(&"/x/y".to_string()), None);
    assert_eq!(s.num_actors(), 1);
}

#[test]
fn system_get_or_create_actor_path() {
    let mut s: UserGuard<u32> = UserGuard::new();
    let path = user_path(&"main".to_string());
    assert!(s.get_or_create_actor_path(path.clone(), || 1));
    let mut called = false;
    assert!(!s.get_or_create_actor_path(path.clone(), || {
        called = true;
        2
    }));
    assert!(!called);
    assert_eq!(s.get_actor(&path), Some(&1));
    assert_eq!(s.num_actors(), 1);
}
