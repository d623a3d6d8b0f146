//! A structured logger that prefixes every message with the name of the
//! component that logs it. It decides what is logged; emitting the event is
//! left to the application's `tracing` subscriber.

use vstd::prelude::*;
use vstd::string::*;

use serde_json::Error as JsonError;
use serde_json::Value as JsonValue;

verus! {

/// A structured logger that emits messages with a component prefix.
#[derive(Debug, Clone)]
pub struct Logger {
    prefix: String,
}

/// The severity of a log event.
#[derive(Debug, Clone, Copy, PartialEq, Eq, Structural)]
pub enum Level {
    Debug,
    Info,
    Warn,
    Error,
}

/// One log event, ready to be emitted.
pub struct LogRecord {
    /// Its severity.
    pub level: Level,
    /// The message, with the logger's prefix.
    pub message: String,
    /// The structured values, as JSON text, when they were a JSON object.
    pub values: Option<String>,
}

/// Whether a JSON value is an object (what `serde_json::Value::is_object`
/// reports).
pub uninterp spec fn json_is_object(value: JsonValue) -> bool;

/// The JSON text that `serde_json::to_string` writes for a value.
pub uninterp spec fn json_text(value: JsonValue) -> Seq<char>;

/// `serde_json::Value::is_object`, trusted to report what `json_is_object`
/// names.
#[verifier::external_body]
fn value_is_object(value: &JsonValue) -> (r: bool)
    ensures
        r == json_is_object(*value),
{
    value.is_object()
}

/// `serde_json::to_string` on a JSON value, trusted to succeed and return the
/// text that `json_text` names. It cannot fail on a `Value`: the source writes
/// into a `Vec`, every map key is a string, and every number is finite.
#[verifier::external_body]
fn value_to_string(value: &JsonValue) -> (r: Result<String, JsonError>)
    ensures
        r is Ok,
        r matches Ok(s) ==> s@ == json_text(*value),
{
    serde_json::to_string(value)
}

/// The message as logged: the prefix in square brackets, a space, then the
/// message.
pub open spec fn prefixed_message(prefix: Seq<char>, message: Seq<char>) -> Seq<char> {
    "["@ + prefix + "] "@ + message
}

/// The logged message is the whole prefix between `[` and `]`, a space, then
/// the whole message: its length is theirs plus three, `[` comes first, the
/// prefix fills the next places, `]` and a space follow, and the message ends
/// it.
pub proof fn lemma_prefixed_message_layout(prefix: Seq<char>, message: Seq<char>)
    ensures
        ({
            let r = prefixed_message(prefix, message);
            let n = prefix.len() as int;
            &&& r.len() == prefix.len() + message.len() + 3
            &&& r[0] == '['
            &&& r.subrange(1, n + 1) == prefix
            &&& r[n + 1] == ']'
            &&& r[n + 2] == ' '
            &&& r.subrange(n + 3, r.len() as int) == message
        }),
{
    reveal_strlit("[");
    reveal_strlit("] ");
    let r = prefixed_message(prefix, message);
    let n = prefix.len() as int;
    assert(r.subrange(1, n + 1) =~= prefix);
    assert(r.subrange(n + 3, r.len() as int) =~= message);
}

impl Logger {
    /// The prefix that every message of this logger carries.
    pub closed spec fn spec_prefix(&self) -> Seq<char> {
        self.prefix@
    }

    /// Creates a new logger instance with a given crate and component name.
    pub fn new(prefix: &str) -> (r: Self)
        ensures
            r.spec_prefix() == prefix@,
    {
        Self { prefix: prefix.to_owned() }
    }

    /// The prefix that every message of this logger carries.
    pub fn prefix(&self) -> (r: &str)
        ensures
            r@ == self.spec_prefix(),
    {
        self.prefix.as_str()
    }

    /// The event to emit for `message` at `level`: the message carries the
    /// prefix, and the structured values are kept, as JSON text, exactly when
    /// they form a JSON object.
    pub fn log(&self, level: Level, message: String, values: Option<JsonValue>) -> (r: LogRecord)
        ensures
            r.level == level,
            r.message@ == prefixed_message(self.spec_prefix(), message@),
            r.message@ == "["@ + self.spec_prefix() + "] "@ + message@,
            match values {
                Some(v) => if json_is_object(v) {
                    r.values matches Some(s) && s@ == json_text(v)
                } else {
                    r.values is None
                },
                None => r.values is None,
            },
    {
        let mut msg = "[".to_owned();
        msg.append(self.prefix.as_str());
        msg.append("] ");
        msg.append(message.as_str());
        let values = match values {
            Some(v) => if value_is_object(&v) {
                match value_to_string(&v) {
                    Ok(s) => Some(s),
                    Err(_) => None,
                }
            } else {
                None
            },
            None => None,
        };
        LogRecord { level, message: msg, values }
    }
}

} // verus!
