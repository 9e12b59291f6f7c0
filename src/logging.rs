//! The logging sink's settings and the text of its records. The driver owns
//! the output (standard output, or a file opened for append) and writes the
//! records built here.
use vstd::prelude::*;
use vstd::string::*;
use crate::staging::{decimal, decimal_text};
use crate::text::{collapse_newlines, collapse_newlines_spec};

verus! {

/// Where records go.
#[derive(Debug)]
pub enum LogTarget {
    Stdout,
    File(String),
}

/// The sink's settings: its target and whether debug records are written.
#[derive(Debug)]
pub struct LogSettings {
    pub target: LogTarget,
    pub debug: bool,
}

impl LogSettings {
    /// Records to standard output, debug records off.
    pub fn new() -> (r: LogSettings)
        ensures
            r.target is Stdout,
            !r.debug,
    {
        LogSettings { target: LogTarget::Stdout, debug: false }
    }
}

/// Enables or disables debug records.
pub fn set_debug_mode(settings: &mut LogSettings, enabled: bool)
    ensures
        final(settings).debug == enabled,
        final(settings).target == old(settings).target,
{
    settings.debug = enabled;
}

/// Whether debug records are written.
pub fn is_debug_enabled(settings: &LogSettings) -> (r: bool)
    ensures
        r == settings.debug,
{
    settings.debug
}

/// Sends the records to the file at `path` from now on.
pub fn set_log_file(settings: &mut LogSettings, path: String)
    ensures
        final(settings).target == LogTarget::File(path),
        final(settings).debug == old(settings).debug,
{
    settings.target = LogTarget::File(path);
}

/// The tag of a worker, ` [T{id}]`, or nothing.
pub open spec fn worker_tag(thread_id: Option<usize>) -> Seq<char> {
    match thread_id {
        Some(t) => " [T"@ + decimal(t as nat) + "]"@,
        None => Seq::empty(),
    }
}

/// A record: the timestamp, the worker tag, a space, the message with its
/// newlines collapsed to spaces, and a newline.
pub open spec fn record_text(timestamp: Seq<char>, thread_id: Option<usize>, message: Seq<char>) -> Seq<char> {
    timestamp + worker_tag(thread_id) + " "@ + collapse_newlines_spec(message) + "\n"@
}

/// Builds the record of `message` stamped with `timestamp`.
pub fn format_record(timestamp: &str, thread_id: Option<usize>, message: &str) -> (r: String)
    ensures
        r@ == record_text(timestamp@, thread_id, message@),
{
    let mut s = String::new();
    s.append(timestamp);
    match thread_id {
        Some(t) => {
            s.append(" [T");
            let digits = decimal_text(t as u64);
            s.append(digits.as_str());
            s.append("]");
        },
        None => {},
    }
    s.append(" ");
    let body = collapse_newlines(message);
    s.append(body.as_str());
    s.append("\n");
    s
}

/// Relies on `chrono::Local::now` and its `%Y-%m-%d %H:%M:%S` formatting:
/// the local wall-clock time, which nothing here can predict.
#[verifier::external_body]
fn local_timestamp() -> (r: String) {
    chrono::Local::now().format("%Y-%m-%d %H:%M:%S").to_string()
}

/// The record of `message`, tagged with the worker when one is given,
/// stamped with the local time.
pub fn log_with_thread(message: &str, thread_id: Option<usize>) -> (r: String)
    ensures
        exists|ts: Seq<char>| r@ == record_text(ts, thread_id, message@),
{
    let ts = local_timestamp();
    format_record(ts.as_str(), thread_id, message)
}

/// The record of `message`, stamped with the local time.
pub fn log(message: &str) -> (r: String)
    ensures
        exists|ts: Seq<char>| r@ == record_text(ts, None, message@),
{
    log_with_thread(message, None)
}

/// The record of a debug message, or nothing when debug records are off.
pub fn log_debug(settings: &LogSettings, message: &str, thread_id: Option<usize>) -> (r: Option<String>)
    ensures
        !settings.debug ==> r is None,
        settings.debug ==> r is Some && exists|ts: Seq<char>| r->0@ == record_text(ts, thread_id, message@),
{
    if !settings.debug {
        return None;
    }
    Some(log_with_thread(message, thread_id))
}

} // verus!
