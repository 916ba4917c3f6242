//! The adaptation layer: a total, one-directional mapping from each foreign
//! error shape consumed by the pipeline to exactly one failure kind, applied
//! where the foreign fallible call is first consumed, so that no raw foreign
//! error type leaks past that boundary.
//!
//! The foreign error types themselves are opaque to the verifier and are
//! declared as such here. A failure kind that preserves its cause stores the
//! foreign error's own display text, obtained through `ToString`; a poisoned
//! lock, a thread's panic payload and an undeliverable value are deliberately
//! stripped of their payload — only the classification is kept.

use vstd::prelude::*;
use crate::error::FailureKind;

verus! {

#[verifier::external_type_specification]
#[verifier::external_body]
pub struct ExIoError(std::io::Error);

#[verifier::external_type_specification]
#[verifier::external_body]
pub struct ExStripPrefixError(std::path::StripPrefixError);

#[verifier::external_type_specification]
#[verifier::external_body]
pub struct ExJsonError(serde_json::Error);

#[verifier::external_type_specification]
#[verifier::external_body]
pub struct ExCsvError(csv::Error);

#[verifier::external_type_specification]
#[verifier::external_body]
pub struct ExTemplateError(minijinja::Error);

#[verifier::external_type_specification]
#[verifier::external_body]
#[verifier::reject_recursive_types(T)]
pub struct ExPoisonError<T>(std::sync::PoisonError<T>);

#[verifier::external_type_specification]
#[verifier::external_body]
#[verifier::reject_recursive_types(T)]
pub struct ExSendError<T>(crossbeam::channel::SendError<T>);

impl From<std::io::Error> for FailureKind {
    /// Adapts a failed filesystem read/open/walk; the foreign error's own
    /// message is preserved as the failure's cause text.
    fn from(item: std::io::Error) -> (r: FailureKind)
        ensures
            r is WrongFile,
            vstd::string::to_string_from_display_ensures::<std::io::Error>(&item, r->WrongFile_0),
    {
        FailureKind::WrongFile(item.to_string())
    }
}

// For the five adaptations that preserve a cause, the adapted kind carries
// the foreign error's display text, which no spec function of this crate can
// name; `from` therefore states its guarantee directly in its own `ensures`,
// tying the stored cause to the foreign error's `to_string` result through
// vstd's predicate for it, and `from_spec` stays switched off.
impl vstd::std_specs::convert::FromSpecImpl<std::io::Error> for FailureKind {
    open spec fn obeys_from_spec() -> bool {
        false
    }

    open spec fn from_spec(v: std::io::Error) -> FailureKind {
        arbitrary()
    }
}

impl From<std::path::StripPrefixError> for FailureKind {
    /// Adapts a failed prefix strip on a path; the foreign error's own
    /// message is preserved as the failure's cause text.
    fn from(item: std::path::StripPrefixError) -> (r: FailureKind)
        ensures
            r is StripPrefix,
            vstd::string::to_string_from_display_ensures::<std::path::StripPrefixError>(&item, r->StripPrefix_0),
    {
        FailureKind::StripPrefix(item.to_string())
    }
}

impl vstd::std_specs::convert::FromSpecImpl<std::path::StripPrefixError> for FailureKind {
    open spec fn obeys_from_spec() -> bool {
        false
    }

    open spec fn from_spec(v: std::path::StripPrefixError) -> FailureKind {
        arbitrary()
    }
}

impl From<serde_json::Error> for FailureKind {
    /// Adapts a failed JSON parse or deserialization; the foreign error's
    /// own message is preserved as the failure's cause text.
    fn from(item: serde_json::Error) -> (r: FailureKind)
        ensures
            r is WrongJSONFile,
            vstd::string::to_string_from_display_ensures::<serde_json::Error>(&item, r->WrongJSONFile_0),
    {
        FailureKind::WrongJSONFile(item.to_string())
    }
}

impl vstd::std_specs::convert::FromSpecImpl<serde_json::Error> for FailureKind {
    open spec fn obeys_from_spec() -> bool {
        false
    }

    open spec fn from_spec(v: serde_json::Error) -> FailureKind {
        arbitrary()
    }
}

impl From<csv::Error> for FailureKind {
    /// Adapts a failed report-row write; the foreign error's own message is
    /// preserved as the failure's cause text.
    fn from(item: csv::Error) -> (r: FailureKind)
        ensures
            r is Writing,
            vstd::string::to_string_from_display_ensures::<csv::Error>(&item, r->Writing_0),
    {
        FailureKind::Writing(item.to_string())
    }
}

impl vstd::std_specs::convert::FromSpecImpl<csv::Error> for FailureKind {
    open spec fn obeys_from_spec() -> bool {
        false
    }

    open spec fn from_spec(v: csv::Error) -> FailureKind {
        arbitrary()
    }
}

impl From<minijinja::Error> for FailureKind {
    /// Adapts a failed HTML template render; the foreign error's own message
    /// is preserved as the failure's cause text.
    fn from(item: minijinja::Error) -> (r: FailureKind)
        ensures
            r is Html,
            vstd::string::to_string_from_display_ensures::<minijinja::Error>(&item, r->Html_0),
    {
        FailureKind::Html(item.to_string())
    }
}

impl vstd::std_specs::convert::FromSpecImpl<minijinja::Error> for FailureKind {
    open spec fn obeys_from_spec() -> bool {
        false
    }

    open spec fn from_spec(v: minijinja::Error) -> FailureKind {
        arbitrary()
    }
}

impl<T> From<std::sync::PoisonError<T>> for FailureKind {
    /// Adapts an observation of a poisoned lock, for a guard over any value
    /// type. The cause is discarded — only the poisoning event matters — so
    /// the adaptation is total and never itself fails.
    fn from(_item: std::sync::PoisonError<T>) -> (r: FailureKind)
        ensures
            r == FailureKind::Mutex,
    {
        FailureKind::Mutex
    }
}

impl<T> vstd::std_specs::convert::FromSpecImpl<std::sync::PoisonError<T>> for FailureKind {
    open spec fn obeys_from_spec() -> bool {
        true
    }

    open spec fn from_spec(v: std::sync::PoisonError<T>) -> FailureKind {
        FailureKind::Mutex
    }
}

impl<T> From<crossbeam::channel::SendError<T>> for FailureKind {
    /// Adapts a failed channel send, for any payload type. The undelivered
    /// value is discarded — only the delivery failure matters — so the
    /// adaptation is total and never itself fails.
    fn from(_item: crossbeam::channel::SendError<T>) -> (r: FailureKind)
        ensures
            r == FailureKind::Sender,
    {
        FailureKind::Sender
    }
}

impl<T> vstd::std_specs::convert::FromSpecImpl<crossbeam::channel::SendError<T>> for FailureKind {
    open spec fn obeys_from_spec() -> bool {
        true
    }

    open spec fn from_spec(v: crossbeam::channel::SendError<T>) -> FailureKind {
        FailureKind::Sender
    }
}

/// Adapts an abnormally terminated worker: a thread's panic payload, of
/// whatever shape — a string, a structured value, or an unknown boxed one —
/// is discarded, since panic payloads are not reliably inspectable, and only
/// the classification is kept; the adaptation is total and never itself
/// fails.
pub fn from_panic_payload<T>(_payload: T) -> (r: FailureKind)
    ensures
        r == FailureKind::Concurrent,
{
    FailureKind::Concurrent
}

} // verus!
