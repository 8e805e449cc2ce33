use rugby::tell::{Level, Tell};

#[test]
fn tell_levels_are_coloured_lowercase_names() {
    assert_eq!(Level::Error.to_string(), "\x1b[1m\x1b[31merror\x1b[39m\x1b[0m");
    assert_eq!(Level::Warn.to_string(), "\x1b[33mwarn\x1b[39m");
    assert_eq!(Level::Info.to_string(), "\x1b[32minfo\x1b[39m");
    assert_eq!(Level::Debug.to_string(), "\x1b[34mdebug\x1b[39m");
    assert_eq!(Level::Trace.to_string(), "\x1b[35mtrace\x1b[39m");
}
