use commandsystem::command::Command;
use commandsystem::registry::Registry;
use commandsystem::registry::RegistryError;

#[test]
fn get_on_unregistered_name_is_not_found() {
    let r: Registry<u32> = Registry::new();
    match r.get(&"missing".to_string()) {
        Ok(_) => panic!("nothing was registered"),
        Err(e) => assert_eq!(e, RegistryError::NotFound),
    }
}

#[test]
fn register_then_get_returns_the_command() {
    let mut r: Registry<u32> = Registry::new();
    r.register(Command::new("ping".to_string(), "replies pong".to_string(), 7));
    let c = r.get(&"ping".to_string()).expect("registered name");
    assert_eq!(c.name(), "ping");
    assert_eq!(c.description(), "replies pong");
    assert_eq!(*c.action(), 7);
}

#[test]
fn duplicate_registration_overwrites() {
    let mut r: Registry<u32> = Registry::new();
    r.register(Command::new("job".to_string(), "first".to_string(), 1));
    r.register(Command::new("job".to_string(), "second".to_string(), 2));
    let c = r.get(&"job".to_string()).expect("registered name");
    assert_eq!(c.description(), "second");
    assert_eq!(*c.action(), 2);
}

#[test]
fn other_names_survive_an_overwrite() {
    let mut r: Registry<u32> = Registry::new();
    r.register(Command::new("a".to_string(), "one".to_string(), 1));
    r.register(Command::new("b".to_string(), "two".to_string(), 2));
    r.register(Command::new("a".to_string(), "three".to_string(), 3));
    assert_eq!(*r.get(&"b".to_string()).expect("kept").action(), 2);
    assert_eq!(*r.get(&"a".to_string()).expect("kept").action(), 3);
}

#[test]
fn hundred_unique_names_all_retrievable() {
    let mut r: Registry<usize> = Registry::new();
    for i in 0..100usize {
        let name = format!("cmd{}", i);
        r.register(Command::new(name, format!("number {}", i), i));
    }
    for i in 0..100usize {
        let name = format!("cmd{}", i);
        let c = r.get(&name).expect("every unique name is present");
        assert_eq!(c.name(), &name);
        assert_eq!(*c.action(), i);
    }
}

#[test]
fn absent_name_among_registrations_is_not_found() {
    let mut r: Registry<u32> = Registry::new();
    r.register(Command::new("a".to_string(), "one".to_string(), 1));
    r.register(Command::new("b".to_string(), "two".to_string(), 2));
    assert!(matches!(r.get(&"c".to_string()), Err(RegistryError::NotFound)));
}

#[test]
fn contains_tracks_registration() {
    let mut r: Registry<u32> = Registry::new();
    assert!(!r.contains(&"x".to_string()));
    r.register(Command::new("x".to_string(), String::new(), 0));
    assert!(r.contains(&"x".to_string()));
    assert!(!r.contains(&"y".to_string()));
}
