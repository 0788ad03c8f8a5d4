use commandsystem::command::Command;

#[test]
fn construction_keeps_the_fields() {
    let c = Command::new("ping".to_string(), "replies pong".to_string(), 42u32);
    assert_eq!(c.name(), "ping");
    assert_eq!(c.description(), "replies pong");
    assert_eq!(*c.action(), 42);
}

#[test]
fn into_action_hands_the_action_out() {
    let c = Command::new("n".to_string(), String::new(), vec![1u8, 2, 3]);
    assert_eq!(c.into_action(), vec![1u8, 2, 3]);
}

#[test]
fn describe_renders_two_lines() {
    let c = Command::new("ping".to_string(), "replies pong".to_string(), 0u8);
    assert_eq!(
        c.describe(),
        "Command Name:     ping\nDescription:    'replies pong' "
    );
}

#[test]
fn describe_with_empty_description() {
    let c = Command::new("quiet".to_string(), String::new(), 0u8);
    assert_eq!(c.describe(), "Command Name:     quiet\nDescription:    '' ");
}
