use logger_rust::log_file::{
    active_log_file, color_code, console_stream, file_record, log_file_name, path_in_directory,
    render_record, str_equal,
};
use logger_rust::{
    debug, error, info, log_message, trace, warn, ConsoleStream, LogLevel, LogVariables,
    LogVariablesImpl,
};

fn store_at(level: LogLevel) -> LogVariablesImpl {
    let mut vars = LogVariablesImpl::new();
    vars.set_level(level);
    vars
}

#[test]
fn console_level_reaches_console_only() {
    let vars = store_at(LogLevel::Console);
    let d = error(&vars, "2024-01-01 10:00:00", "boom");
    assert_eq!(d.console, Some(ConsoleStream::Stderr));
    assert!(!d.to_file);
}

#[test]
fn file_level_reaches_file_only() {
    let vars = store_at(LogLevel::File);
    let d = info(&vars, "t", "m");
    assert_eq!(d.console, None);
    assert!(d.to_file);
}

#[test]
fn both_level_reaches_console_and_file() {
    let vars = store_at(LogLevel::Both);
    let d = warn(&vars, "t", "m");
    assert_eq!(d.console, Some(ConsoleStream::Stderr));
    assert!(d.to_file);
    let d = debug(&vars, "t", "m");
    assert_eq!(d.console, Some(ConsoleStream::Stdout));
    assert!(d.to_file);
}

#[test]
fn info_debug_trace_go_to_stdout() {
    let vars = store_at(LogLevel::Console);
    assert_eq!(info(&vars, "t", "m").console, Some(ConsoleStream::Stdout));
    assert_eq!(debug(&vars, "t", "m").console, Some(ConsoleStream::Stdout));
    assert_eq!(trace(&vars, "t", "m").console, Some(ConsoleStream::Stdout));
    assert_eq!(console_stream("CUSTOM"), ConsoleStream::Stdout);
    assert_eq!(console_stream("WARN"), ConsoleStream::Stderr);
}

#[test]
fn error_record_is_decorated() {
    let vars = store_at(LogLevel::Console);
    let d = error(&vars, "2024-01-01 10:00:00", "boom");
    assert_eq!(
        d.record,
        "\x1b[1m\x1b[37m2024-01-01 10:00:00\x1b[0m \x1b[31m[ERROR]\x1b[0m \x1b[31mboom\x1b[0m"
    );
}

#[test]
fn unknown_tag_uses_reset_colour() {
    assert_eq!(
        render_record("TRACE", "now", "msg"),
        "\x1b[1m\x1b[37mnow\x1b[0m \x1b[0m[TRACE]\x1b[0m \x1b[0mmsg\x1b[0m"
    );
    let vars = store_at(LogLevel::File);
    let d = log_message(&vars, "NOTICE", "n", "x");
    assert_eq!(d.record, "\x1b[1m\x1b[37mn\x1b[0m \x1b[0m[NOTICE]\x1b[0m \x1b[0mx\x1b[0m");
}

#[test]
fn colour_codes_per_level() {
    assert_eq!(color_code("ERROR"), "\x1b[31m");
    assert_eq!(color_code("WARN"), "\x1b[33m");
    assert_eq!(color_code("INFO"), "\x1b[36m");
    assert_eq!(color_code("DEBUG"), "\x1b[34m");
    assert_eq!(color_code("error"), "\x1b[0m");
    assert_eq!(color_code(""), "\x1b[0m");
}

#[test]
fn string_comparison() {
    assert!(str_equal("abc", "abc"));
    assert!(!str_equal("abc", "abd"));
    assert!(!str_equal("abc", "ab"));
    assert!(str_equal("", ""));
}

#[test]
fn file_line_is_time_space_record_newline() {
    assert_eq!(file_record("2024-01-01 10:00:00", "hello"), "2024-01-01 10:00:00 hello\n");
    assert_eq!(file_record("", ""), " \n");
}

#[test]
fn log_file_in_current_directory() {
    assert_eq!(log_file_name("", "2024-05-06"), "2024-05-06.log");
}

#[test]
fn log_file_in_directory() {
    assert_eq!(log_file_name("/var/log", "2024-05-06"), "/var/log/2024-05-06.log");
    assert_eq!(log_file_name("/var/log/", "2024-05-06"), "/var/log/2024-05-06.log");
    assert_eq!(path_in_directory("logs", "a.txt"), "logs/a.txt");
    assert_eq!(path_in_directory("", "a.txt"), "a.txt");
}

#[test]
fn active_log_file_is_dated_in_directory() {
    let mut vars = LogVariablesImpl::new();
    vars.set_directory("/tmp/logs".to_string());
    let name = active_log_file(&vars);
    assert!(name.starts_with("/tmp/logs/"));
    assert!(name.ends_with(".log"));
    let date = &name["/tmp/logs/".len()..name.len() - 4];
    assert_eq!(date.len(), 10);
    assert_eq!(&date[4..5], "-");
    assert_eq!(&date[7..8], "-");
}

#[test]
fn level_read_twice_is_same() {
    let vars = store_at(LogLevel::Both);
    let a = vars.get_level();
    let b = vars.get_level();
    assert_eq!(a, b);
    assert_eq!(vars.log_level(), vars.log_level());
    assert_eq!(a, LogLevel::Both);
}
