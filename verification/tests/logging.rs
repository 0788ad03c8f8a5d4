use commandsystem::logging::LogColor;
use commandsystem::logging::LogLevel;
use commandsystem::logging::create_log_prefix;
use commandsystem::logging::log;
use commandsystem::logging::make_log;
use commandsystem::time::Timestamp;

fn ts(hour: u32, minute: u32, second: u32, day: u32, month: u32, year: i32) -> Timestamp {
    Timestamp { hour, minute, second, day, month, year }
}

#[test]
fn warning_prefix_scenario() {
    // A call at 2024-01-02T03:04:05Z with level WARNING: unpadded fields.
    let t = ts(3, 4, 5, 2, 1, 2024);
    let prefix = create_log_prefix("WARN", t);
    assert_eq!(prefix, "[3:4:5 - 2.1.2024] (WARN):");
}

#[test]
fn warning_line_scenario() {
    let t = ts(3, 4, 5, 2, 1, 2024);
    let l = make_log(LogLevel::WARNING, "disk low".to_string(), t);
    assert_eq!(l.render(), "[3:4:5 - 2.1.2024] (WARN): disk low");
    assert_eq!(l.color, LogColor::Yellow);
}

#[test]
fn normal_level_has_empty_label() {
    let t = ts(23, 59, 59, 31, 12, 1999);
    let l = make_log(LogLevel::NORMAL, "hello".to_string(), t);
    assert_eq!(l.prefix, "[23:59:59 - 31.12.1999] ():");
    assert_eq!(l.message, "hello");
    assert_eq!(l.color, LogColor::White);
}

#[test]
fn information_level_label_and_color() {
    let t = ts(0, 0, 0, 1, 1, 2000);
    let l = make_log(LogLevel::INFORMATION, "i".to_string(), t);
    assert_eq!(l.prefix, "[0:0:0 - 1.1.2000] (INFORMATION):");
    assert_eq!(l.color, LogColor::Magenta);
}

#[test]
fn exception_level_label_and_color() {
    let t = ts(12, 30, 7, 15, 6, 2021);
    let l = make_log(LogLevel::EXCEPTION, "e".to_string(), t);
    assert_eq!(l.prefix, "[12:30:7 - 15.6.2021] (EXCEPTION):");
    assert_eq!(l.color, LogColor::Red);
}

#[test]
fn negative_year_renders_with_sign() {
    let t = ts(1, 2, 3, 4, 5, -44);
    let prefix = create_log_prefix("WARN", t);
    assert_eq!(prefix, "[1:2:3 - 4.5.-44] (WARN):");
}

#[test]
fn log_uses_the_clock_and_keeps_the_message() {
    let l = log(LogLevel::WARNING, "live".to_string());
    assert_eq!(l.message, "live");
    assert_eq!(l.color, LogColor::Yellow);
    assert!(l.prefix.starts_with('['));
    assert!(l.prefix.ends_with("] (WARN):"));
}
