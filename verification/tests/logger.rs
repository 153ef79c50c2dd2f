use simse_core::logger::{create_noop_logger, level_passes, LogLevel, Logger};

#[test]
fn test_default_level_is_info() {
    let logger = Logger::new("test");
    assert_eq!(logger.get_level(), LogLevel::Info);
}

#[test]
fn test_child_context_format() {
    let parent = Logger::new("parent");
    let child = parent.child("child");
    assert_eq!(child.context(), "parent:child");
}

#[test]
fn test_nested_children() {
    let root = Logger::new("root");
    let mid = root.child("mid");
    let leaf = mid.child("leaf");
    assert_eq!(leaf.context(), "root:mid:leaf");
}

#[test]
fn test_noop_logger_level() {
    let logger = create_noop_logger();
    assert_eq!(logger.get_level(), LogLevel::Off);
}

#[test]
fn child_shares_level_with_parent() {
    let parent = Logger::new("p");
    let child = parent.child("c");
    parent.set_level(LogLevel::Error);
    assert_eq!(child.get_level(), LogLevel::Error);
    assert!(!child.is_enabled(LogLevel::Warn));
    assert!(child.is_enabled(LogLevel::Error));
}

#[test]
fn level_filtering() {
    assert!(level_passes(LogLevel::Warn, LogLevel::Info));
    assert!(!level_passes(LogLevel::Debug, LogLevel::Info));
    assert!(!level_passes(LogLevel::Error, LogLevel::Off));
}
