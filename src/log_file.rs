use vstd::prelude::*;
use vstd::string::*;

use crate::config::{LogLevel, LogVariables, LogVariablesImpl};
use crate::log_rotator::{
    is_next_rotation, names_of, next_rotated_name, rotated_name, rotation_due, should_rotate,
    FileMeta, LogRotatorConfig,
};

verus! {

/// The console stream a record is written to.
#[derive(Clone, Copy, Debug, PartialEq, Eq, Structural)]
pub enum ConsoleStream {
    Stderr,
    Stdout,
}

/// What to do with one record: the decorated record itself, the console
/// stream it goes to (if any), and whether it is appended to the log file.
/// A host performs the console write first, then the file write.
pub struct Dispatch {
    pub record: String,
    pub console: Option<ConsoleStream>,
    pub to_file: bool,
}

/// Errors and warnings go to standard error, everything else to standard output.
pub open spec fn stream_for(level: Seq<char>) -> ConsoleStream {
    if level == "ERROR"@ || level == "WARN"@ {
        ConsoleStream::Stderr
    } else {
        ConsoleStream::Stdout
    }
}

pub open spec fn goes_to_console(output: LogLevel) -> bool {
    output != LogLevel::File
}

pub open spec fn goes_to_file(output: LogLevel) -> bool {
    output != LogLevel::Console
}

/// The terminal colour of a level tag.
pub open spec fn color_of(level: Seq<char>) -> Seq<char> {
    if level == "ERROR"@ {
        "\x1b[31m"@
    } else if level == "WARN"@ {
        "\x1b[33m"@
    } else if level == "INFO"@ {
        "\x1b[36m"@
    } else if level == "DEBUG"@ {
        "\x1b[34m"@
    } else {
        "\x1b[0m"@
    }
}

/// A record as it is shown and stored: bold time, coloured `[LEVEL]`,
/// coloured message.
pub open spec fn rendered(level: Seq<char>, now: Seq<char>, message: Seq<char>) -> Seq<char> {
    "\x1b[1m\x1b[37m"@ + now + "\x1b[0m "@ + color_of(level) + "["@ + level + "]\x1b[0m "@
        + color_of(level) + message + "\x1b[0m"@
}

/// The line appended to the log file for a record.
pub open spec fn file_line(now: Seq<char>, record: Seq<char>) -> Seq<char> {
    now + " "@ + record + "\n"@
}

/// `file_name` placed in `dir`; an empty `dir` is the current directory.
pub open spec fn joined(dir: Seq<char>, file_name: Seq<char>) -> Seq<char> {
    if dir.len() == 0 {
        file_name
    } else if dir.last() == '/' {
        dir + file_name
    } else {
        dir + "/"@ + file_name
    }
}

/// The active log file for the date stamp `date` in `dir`.
pub open spec fn log_file_path(dir: Seq<char>, date: Seq<char>) -> Seq<char> {
    joined(dir, date + ".log"@)
}

/// Compares two strings character by character.
pub fn str_equal(a: &str, b: &str) -> (r: bool)
    ensures
        r == (a@ == b@),
{
    let n = a.unicode_len();
    if n != b.unicode_len() {
        return false;
    }
    let mut i: usize = 0;
    while i < n
        invariant
            n == a@.len(),
            n == b@.len(),
            i <= n,
            forall|j: int| 0 <= j < i ==> a@[j] == b@[j],
        decreases n - i,
    {
        if a.get_char(i) != b.get_char(i) {
            return false;
        }
        i = i + 1;
    }
    assert(a@ =~= b@);
    true
}

/// The colour escape for a level tag.
pub fn color_code(level: &str) -> (r: &'static str)
    ensures
        r@ == color_of(level@),
{
    if str_equal(level, "ERROR") {
        "\x1b[31m"
    } else if str_equal(level, "WARN") {
        "\x1b[33m"
    } else if str_equal(level, "INFO") {
        "\x1b[36m"
    } else if str_equal(level, "DEBUG") {
        "\x1b[34m"
    } else {
        "\x1b[0m"
    }
}

/// The console stream for a level tag.
pub fn console_stream(level: &str) -> (r: ConsoleStream)
    ensures
        r == stream_for(level@),
{
    if str_equal(level, "ERROR") || str_equal(level, "WARN") {
        ConsoleStream::Stderr
    } else {
        ConsoleStream::Stdout
    }
}

/// Decorates a message with its time and level.
pub fn render_record(level: &str, now: &str, message: &str) -> (r: String)
    ensures
        r@ == rendered(level@, now@, message@),
{
    let color = color_code(level);
    let mut r = String::from_str("\x1b[1m\x1b[37m");
    r.append(now);
    r.append("\x1b[0m ");
    r.append(color);
    r.append("[");
    r.append(level);
    r.append("]\x1b[0m ");
    r.append(color);
    r.append(message);
    r.append("\x1b[0m");
    assert(r@ =~= rendered(level@, now@, message@));
    r
}

/// The line to append to the log file: `<now> <record>` and a newline.
pub fn file_record(now: &str, record: &str) -> (r: String)
    ensures
        r@ == file_line(now@, record@),
{
    let mut r = String::from_str(now);
    r.append(" ");
    r.append(record);
    r.append("\n");
    assert(r@ =~= file_line(now@, record@));
    r
}

/// Places `file_name` in the directory `dir`.
pub fn path_in_directory(dir: &str, file_name: &str) -> (r: String)
    ensures
        r@ == joined(dir@, file_name@),
{
    let n = dir.unicode_len();
    if n == 0 {
        return String::from_str(file_name);
    }
    let mut r = String::from_str(dir);
    if dir.get_char(n - 1) != '/' {
        r.append("/");
    }
    r.append(file_name);
    assert(r@ =~= joined(dir@, file_name@));
    r
}

/// The active log file for the date stamp `date` in `dir`: `<dir>/<date>.log`.
pub fn log_file_name(dir: &str, date: &str) -> (r: String)
    ensures
        r@ == log_file_path(dir@, date@),
{
    let mut name = String::from_str(date);
    name.append(".log");
    path_in_directory(dir, name.as_str())
}

/// Relies on `chrono::Local::now` and `DateTime::format`: today's local date,
/// rendered as `%Y-%m-%d`. It depends on the clock, so nothing is stated of it.
#[verifier::external_body]
fn local_date_stamp() -> (r: String) {
    chrono::Local::now().format("%Y-%m-%d").to_string()
}

/// The active log file of the store's directory for today's date.
pub fn active_log_file(vars: &LogVariablesImpl) -> (r: String)
    ensures
        exists|date: Seq<char>| r@ == #[trigger] log_file_path(vars.directory@, date),
{
    let date = local_date_stamp();
    log_file_name(vars.directory.as_str(), date.as_str())
}

/// Decides how one record is routed under the store's output level: the
/// level is read once, the record is decorated, and the sinks are chosen.
pub fn log_message(vars: &LogVariablesImpl, level: &str, now: &str, message: &str) -> (r: Dispatch)
    ensures
        r.record@ == rendered(level@, now@, message@),
        r.console == (if goes_to_console(vars.level) {
            Some(stream_for(level@))
        } else {
            None
        }),
        r.to_file == goes_to_file(vars.level),
{
    let record = render_record(level, now, message);
    let output = vars.log_level();
    let console = match output {
        LogLevel::File => None,
        _ => Some(console_stream(level)),
    };
    let to_file = match output {
        LogLevel::Console => false,
        _ => true,
    };
    Dispatch { record, console, to_file }
}

/// The name under which the active file `active` is rotated aside before the
/// next write, or `None` when it stays: there is a policy, the file's metadata
/// was read, and a limit is exceeded. `existing` holds the paths present in
/// the directory.
pub fn rotation_target(
    policy: &Option<LogRotatorConfig>,
    active: &str,
    meta: &Option<FileMeta>,
    existing: &Vec<String>,
) -> (r: Option<String>)
    requires
        existing@.len() < usize::MAX,
    ensures
        r.is_some() == (policy.is_some() && meta.is_some() && rotation_due(
            meta.unwrap(),
            policy.unwrap(),
        )),
        r.is_some() ==> exists|i: nat|
            is_next_rotation(active@, names_of(existing@), i) && r.unwrap()@
                == #[trigger] rotated_name(active@, i),
{
    match (policy, meta) {
        (Some(p), Some(m)) => {
            if should_rotate(m, p) {
                Some(next_rotated_name(active, existing))
            } else {
                None
            }
        },
        _ => None,
    }
}

/// Each output level reaches exactly its sinks: `Console` the console alone,
/// `File` the file alone, `Both` the console and the file.
pub proof fn lemma_levels_reach_their_sinks(output: LogLevel)
    ensures
        output == LogLevel::Console ==> goes_to_console(output) && !goes_to_file(output),
        output == LogLevel::File ==> !goes_to_console(output) && goes_to_file(output),
        output == LogLevel::Both ==> goes_to_console(output) && goes_to_file(output),
{
}

} // verus!
