//! The failure taxonomy: one closed sum type naming every failure domain of
//! the analysis pipeline, the generic success-or-failure carrier returned by
//! every fallible operation, and the rendering of a failure into its
//! single-line user-facing message.

use vstd::prelude::*;
use vstd::string::StringExecFns;

verus! {

/// One failure kind per failure domain. Variants that adapt a foreign error
/// carry that error's own display text so that rendering can preserve the
/// cause verbatim; the remaining variants are pure markers. The set is
/// closed: handling code matches it exhaustively, with no catch-all arm.
#[derive(Debug)]
pub enum FailureKind {
    /// A filesystem read/open/walk failed; holds the cause's text.
    WrongFile(String),
    /// Stripping a known root prefix from a path failed; holds the cause's text.
    StripPrefix(String),
    /// A parsed construct could not be assigned a qualified scope name.
    FuncSpaceName,
    /// A JSON document failed to parse or deserialize; holds the cause's text.
    WrongJSONFile(String),
    /// A generic value-to-typed conversion failed (schema mismatch).
    Conversion,
    /// A required key was absent from an associative lookup.
    HashMap,
    /// A JSON value could not be reconstructed from an in-memory buffer.
    ReadingJSON,
    /// Metric aggregation over a parsed tree failed.
    Metrics,
    /// The source language of a file could not be determined.
    Language,
    /// Writing a report row failed; holds the cause's text.
    Writing(String),
    /// A worker thread terminated abnormally before finishing its work.
    Concurrent,
    /// The input report claims a schema other than the two supported.
    Type,
    /// A path could not be losslessly represented as text.
    PathConversion,
    /// A user-supplied output path failed validation; carries the full
    /// explanatory message to render.
    OutputPath(&'static str),
    /// An expected-present optional reference was absent.
    OptionRefConversion,
    /// A shared guard could not be acquired because a prior holder panicked.
    Mutex,
    /// A value could not be delivered because the receiver was already closed.
    Sender,
    /// HTML templating failed; holds the cause's text.
    Html(String),
}

/// The outcome of a fallible operation: a value, or exactly one failure kind.
/// Dependent operations short-circuit on the first failure, and a value moves
/// across thread and channel boundaries unchanged.
pub type Outcome<T> = Result<T, FailureKind>;

/// The fixed message bound to a failure's domain at definition time.
pub open spec fn domain_message(e: FailureKind) -> Seq<char> {
    match e {
        FailureKind::WrongFile(_) => "Error while reading Files from project folder"@,
        FailureKind::StripPrefix(_) => "Error while stripping the prefix"@,
        FailureKind::FuncSpaceName => "Error while parsing function space name"@,
        FailureKind::WrongJSONFile(_) => "Error while reading json"@,
        FailureKind::Conversion => "Error while converting JSON value to a type"@,
        FailureKind::HashMap => "Error while getting value from hashmap"@,
        FailureKind::ReadingJSON => "Failing reading JSON from string"@,
        FailureKind::Metrics => "Error while computing Metrics"@,
        FailureKind::Language => "Error while guessing language"@,
        FailureKind::Writing(_) => "Error while writing on csv"@,
        FailureKind::Concurrent => "Error during concurrency"@,
        FailureKind::Type => "Json Type is not supported! Only coveralls and covdir are supported."@,
        FailureKind::PathConversion => "Error while converting path to string"@,
        FailureKind::OutputPath(s) => s@,
        FailureKind::OptionRefConversion => "Error while converting &Option<T> to &T"@,
        FailureKind::Mutex => "Error while locking mutex"@,
        FailureKind::Sender => "Error while sending job via sender"@,
        FailureKind::Html(_) => "Error while creating HTML file"@,
    }
}

/// Whether this failure wraps a foreign cause.
pub open spec fn has_cause(e: FailureKind) -> bool {
    match e {
        FailureKind::WrongFile(_) => true,
        FailureKind::StripPrefix(_) => true,
        FailureKind::FuncSpaceName => false,
        FailureKind::WrongJSONFile(_) => true,
        FailureKind::Conversion => false,
        FailureKind::HashMap => false,
        FailureKind::ReadingJSON => false,
        FailureKind::Metrics => false,
        FailureKind::Language => false,
        FailureKind::Writing(_) => true,
        FailureKind::Concurrent => false,
        FailureKind::Type => false,
        FailureKind::PathConversion => false,
        FailureKind::OutputPath(_) => false,
        FailureKind::OptionRefConversion => false,
        FailureKind::Mutex => false,
        FailureKind::Sender => false,
        FailureKind::Html(_) => true,
    }
}

/// The preserved text of the wrapped foreign cause; empty for a failure
/// that wraps none.
pub open spec fn cause_text(e: FailureKind) -> Seq<char> {
    match e {
        FailureKind::WrongFile(c) => c@,
        FailureKind::StripPrefix(c) => c@,
        FailureKind::FuncSpaceName => Seq::empty(),
        FailureKind::WrongJSONFile(c) => c@,
        FailureKind::Conversion => Seq::empty(),
        FailureKind::HashMap => Seq::empty(),
        FailureKind::ReadingJSON => Seq::empty(),
        FailureKind::Metrics => Seq::empty(),
        FailureKind::Language => Seq::empty(),
        FailureKind::Writing(c) => c@,
        FailureKind::Concurrent => Seq::empty(),
        FailureKind::Type => Seq::empty(),
        FailureKind::PathConversion => Seq::empty(),
        FailureKind::OutputPath(_) => Seq::empty(),
        FailureKind::OptionRefConversion => Seq::empty(),
        FailureKind::Mutex => Seq::empty(),
        FailureKind::Sender => Seq::empty(),
        FailureKind::Html(c) => c@,
    }
}

/// The text that separates a domain message from its preserved cause.
pub open spec fn caused_by_text() -> Seq<char> {
    ", caused by: "@
}

/// The single-line message a failure renders to: the domain's fixed message,
/// followed by the preserved cause when one is wrapped.
pub open spec fn spec_render(e: FailureKind) -> Seq<char> {
    if has_cause(e) {
        domain_message(e) + caused_by_text() + cause_text(e)
    } else {
        domain_message(e)
    }
}

/// `prefix` is the start of `s`.
pub open spec fn text_starts_with(s: Seq<char>, prefix: Seq<char>) -> bool {
    prefix.len() <= s.len() && s.subrange(0, prefix.len() as int) == prefix
}

/// `suffix` is the end of `s`.
pub open spec fn text_ends_with(s: Seq<char>, suffix: Seq<char>) -> bool {
    suffix.len() <= s.len() && s.subrange(s.len() - suffix.len(), s.len() as int) == suffix
}

/// The domain's fixed message followed by the given cause's text.
fn message_with_cause(message: &str, cause: &String) -> (r: String)
    ensures
        r@ == message@ + caused_by_text() + cause@,
{
    String::from_str(message).concat(", caused by: ").concat(cause.as_str())
}

impl FailureKind {
    /// Renders the single-line user-facing message of this failure: the fixed
    /// message of its domain, then `, caused by: ` and the foreign cause's
    /// own text when one is wrapped.
    pub fn render(&self) -> (r: String)
        ensures
            r@ == spec_render(*self),
    {
        match self {
            FailureKind::WrongFile(c) => message_with_cause("Error while reading Files from project folder", c),
            FailureKind::StripPrefix(c) => message_with_cause("Error while stripping the prefix", c),
            FailureKind::FuncSpaceName => String::from_str("Error while parsing function space name"),
            FailureKind::WrongJSONFile(c) => message_with_cause("Error while reading json", c),
            FailureKind::Conversion => String::from_str("Error while converting JSON value to a type"),
            FailureKind::HashMap => String::from_str("Error while getting value from hashmap"),
            FailureKind::ReadingJSON => String::from_str("Failing reading JSON from string"),
            FailureKind::Metrics => String::from_str("Error while computing Metrics"),
            FailureKind::Language => String::from_str("Error while guessing language"),
            FailureKind::Writing(c) => message_with_cause("Error while writing on csv", c),
            FailureKind::Concurrent => String::from_str("Error during concurrency"),
            FailureKind::Type => String::from_str("Json Type is not supported! Only coveralls and covdir are supported."),
            FailureKind::PathConversion => String::from_str("Error while converting path to string"),
            FailureKind::OutputPath(s) => String::from_str(s),
            FailureKind::OptionRefConversion => String::from_str("Error while converting &Option<T> to &T"),
            FailureKind::Mutex => String::from_str("Error while locking mutex"),
            FailureKind::Sender => String::from_str("Error while sending job via sender"),
            FailureKind::Html(c) => message_with_cause("Error while creating HTML file", c),
        }
    }
}

/// Law: every failure renders to a message that begins with its domain's
/// fixed message, whatever cause it wraps.
pub proof fn lemma_render_begins_with_domain_message(e: FailureKind)
    ensures
        text_starts_with(spec_render(e), domain_message(e)),
{
    assert(spec_render(e).subrange(0, domain_message(e).len() as int) =~= domain_message(e));
}

/// Law: a failure that wraps a foreign cause renders to a message that ends
/// with the cause's own text, preserved verbatim — the cause is never
/// swallowed.
pub proof fn lemma_render_preserves_cause(e: FailureKind)
    requires
        has_cause(e),
    ensures
        text_ends_with(spec_render(e), cause_text(e)),
{
    let s = spec_render(e);
    let c = cause_text(e);
    assert(s.subrange(s.len() - c.len(), s.len() as int) =~= c);
}

/// Law: an `OutputPath` failure renders to exactly the static text it
/// carries, unchanged.
pub proof fn lemma_output_path_renders_exactly(e: FailureKind)
    requires
        e is OutputPath,
    ensures
        spec_render(e) == e->OutputPath_0@,
{
}

} // verus!

