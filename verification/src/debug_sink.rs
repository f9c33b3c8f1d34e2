//! The debug message sink: how a native diagnostic message is routed to the
//! process's logging facility, and the startup self-test that submits one
//! synthetic message at each of the four native severities.

use crate::severity::Severity;
use vstd::prelude::*;

verus! {

/// The log levels of the process's logging facility, most severe first.
#[derive(Clone, Copy, Debug, PartialEq, Eq, Structural)]
pub enum LogLevel {
    Error,
    Warn,
    Info,
    Debug,
    Trace,
}

/// The category flags a native diagnostic message is tagged with.
#[derive(Clone, Copy, Debug, PartialEq, Eq, Structural)]
pub struct CategoryFlags {
    pub general: bool,
    pub validation: bool,
    pub performance: bool,
}

/// The native encoding of the category flags: general 0x1, validation 0x2,
/// performance 0x4, summed over the flags that are set.
pub open spec fn spec_category_bits(categories: CategoryFlags) -> u32 {
    ((if categories.general {
        0x1u32
    } else {
        0u32
    }) + (if categories.validation {
        0x2u32
    } else {
        0u32
    }) + (if categories.performance {
        0x4u32
    } else {
        0u32
    })) as u32
}

/// Encode category flags in the native API's bit layout.
pub fn category_bits(categories: &CategoryFlags) -> (bits: u32)
    ensures
        bits == spec_category_bits(*categories),
{
    let mut bits: u32 = 0;
    if categories.general {
        bits = bits + 0x1;
    }
    if categories.validation {
        bits = bits + 0x2;
    }
    if categories.performance {
        bits = bits + 0x4;
    }
    bits
}

/// A native diagnostic message, its optional string fields already validated:
/// a missing identifier name is `None`, never a dangling reference.
pub struct DebugMessage {
    pub severity: Severity,
    pub categories: CategoryFlags,
    pub id_name: Option<String>,
    pub id_number: i32,
    pub text: String,
}

/// A routed log entry: the level it is emitted at, and the message's fields
/// carried over verbatim.
pub struct LogEntry {
    pub level: LogLevel,
    pub categories: CategoryFlags,
    pub id_name: Option<String>,
    pub id_number: i32,
    pub text: String,
}

/// The log level a native severity is re-emitted at. The dispatcher handles
/// exactly the four defined severities; decoding rejects everything else
/// before a message reaches this point.
pub open spec fn level_of(severity: Severity) -> LogLevel {
    match severity {
        Severity::Error => LogLevel::Error,
        Severity::Warning => LogLevel::Warn,
        Severity::Info => LogLevel::Info,
        Severity::Verbose => LogLevel::Trace,
    }
}

/// The entry a message routes to: the matching level, every field verbatim.
pub open spec fn spec_route(message: DebugMessage) -> LogEntry {
    LogEntry {
        level: level_of(message.severity),
        categories: message.categories,
        id_name: message.id_name,
        id_number: message.id_number,
        text: message.text,
    }
}

/// Route one diagnostic message: the entry's level matches the message's
/// severity and the category, identifier and text fields are preserved
/// verbatim.
pub fn route_message(message: DebugMessage) -> (entry: LogEntry)
    ensures
        entry == spec_route(message),
        entry.level == level_of(message.severity),
        entry.categories == message.categories,
        entry.id_name == message.id_name,
        entry.id_number == message.id_number,
        entry.text == message.text,
{
    let level = match message.severity {
        Severity::Error => LogLevel::Error,
        Severity::Warning => LogLevel::Warn,
        Severity::Info => LogLevel::Info,
        Severity::Verbose => LogLevel::Trace,
    };
    LogEntry {
        level,
        categories: message.categories,
        id_name: message.id_name,
        id_number: message.id_number,
        text: message.text,
    }
}

/// Route a batch of diagnostic messages in order.
pub fn route_all(messages: Vec<DebugMessage>) -> (entries: Vec<LogEntry>)
    ensures
        entries@ == messages@.map_values(|m: DebugMessage| spec_route(m)),
{
    let ghost original = messages@;
    let mut messages = messages;
    let mut entries: Vec<LogEntry> = Vec::new();
    while messages.len() > 0
        invariant
            messages@ == original.skip(entries@.len() as int),
            entries@ == original.take(entries@.len() as int).map_values(
                |m: DebugMessage| spec_route(m),
            ),
            entries@.len() <= original.len(),
        decreases messages@.len(),
    {
        let ghost done = entries@.len() as int;
        let message = messages.remove(0);
        assert(message == original[done]);
        entries.push(route_message(message));
        proof {
            assert(messages@ =~= original.skip(done + 1));
            assert(original.take(done + 1) =~= original.take(done).push(original[done]));
            assert(entries@ =~= original.take(done + 1).map_values(
                |m: DebugMessage| spec_route(m),
            ));
        }
    }
    proof {
        assert(entries@ =~= original.map_values(|m: DebugMessage| spec_route(m)));
    }
    entries
}

/// The fields every synthetic self-test message carries.
pub open spec fn is_self_test_message(message: DebugMessage) -> bool {
    &&& message.id_number == 1
    &&& message.text@ == "test"@
    &&& match message.id_name {
        Some(name) => name@ == "testing"@,
        None => false,
    }
}

/// The four synthetic messages of the startup self-test: one at each native
/// severity, from most to least severe, spread over the three message
/// categories, all with the same identifier and text.
pub fn self_test_messages() -> (messages: Vec<DebugMessage>)
    ensures
        messages@.len() == 4,
        messages@[0].severity == Severity::Error,
        messages@[1].severity == Severity::Warning,
        messages@[2].severity == Severity::Info,
        messages@[3].severity == Severity::Verbose,
        messages@[0].categories == (CategoryFlags {
            general: true,
            validation: false,
            performance: false,
        }),
        messages@[1].categories == (CategoryFlags {
            general: false,
            validation: false,
            performance: true,
        }),
        messages@[2].categories == (CategoryFlags {
            general: false,
            validation: true,
            performance: false,
        }),
        messages@[3].categories == (CategoryFlags {
            general: true,
            validation: false,
            performance: false,
        }),
        forall|i: int| 0 <= i < messages@.len() ==> is_self_test_message(#[trigger] messages@[i]),
{
    let general = CategoryFlags { general: true, validation: false, performance: false };
    let validation = CategoryFlags { general: false, validation: true, performance: false };
    let performance = CategoryFlags { general: false, validation: false, performance: true };
    let mut messages: Vec<DebugMessage> = Vec::new();
    messages.push(self_test_message(Severity::Error, general));
    messages.push(self_test_message(Severity::Warning, performance));
    messages.push(self_test_message(Severity::Info, validation));
    messages.push(self_test_message(Severity::Verbose, general));
    messages
}

/// One synthetic self-test message at the given severity and category.
fn self_test_message(severity: Severity, categories: CategoryFlags) -> (message: DebugMessage)
    ensures
        message.severity == severity,
        message.categories == categories,
        is_self_test_message(message),
{
    DebugMessage {
        severity,
        categories,
        id_name: Some(String::from_str("testing")),
        id_number: 1,
        text: String::from_str("test"),
    }
}

/// The fields of a routed self-test entry.
pub open spec fn is_self_test_entry(entry: LogEntry) -> bool {
    &&& entry.id_number == 1
    &&& entry.text@ == "test"@
    &&& match entry.id_name {
        Some(name) => name@ == "testing"@,
        None => false,
    }
}

/// The startup self-test: routing one message at each of the four native
/// severities produces exactly four log entries, one per severity from most
/// to least severe, each at the matching log level, with the identifier and
/// text fields preserved verbatim.
pub fn run_self_test() -> (entries: Vec<LogEntry>)
    ensures
        entries@.len() == 4,
        entries@[0].level == LogLevel::Error,
        entries@[1].level == LogLevel::Warn,
        entries@[2].level == LogLevel::Info,
        entries@[3].level == LogLevel::Trace,
        forall|i: int| 0 <= i < entries@.len() ==> is_self_test_entry(#[trigger] entries@[i]),
{
    let messages = self_test_messages();
    let entries = route_all(messages);
    assert(forall|i: int| 0 <= i < entries@.len() ==> is_self_test_entry(#[trigger] entries@[i]));
    entries
}

} // verus!
