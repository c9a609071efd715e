//! The opaque internal-error type and its rendering rules.
//!
//! An `InternalError` is produced when a failure occurred within a function
//! but the failure is an internal implementation detail: there is no specific
//! information that would help the caller recover or take action. It may wrap
//! an opaque causal error, optionally labelled with a prefix, and may carry a
//! caller-supplied message that takes precedence when the error is shown.

use vstd::prelude::*;
use vstd::string::StringExecFns;

use crate::sink::DiagnosticSink;
use crate::text::append_quoted;
use crate::text::quoted;

verus! {

/// The mathematical content of an opaque causal error: its plain rendering
/// and its structured debug rendering.
pub struct OpaqueErrorView {
    pub display: Seq<char>,
    pub debug: Seq<char>,
}

/// The mathematical content of a wrapped cause: the cause itself and the
/// optional prefix that labels it when shown.
pub struct SourceView {
    pub prefix: Option<Seq<char>>,
    pub cause: OpaqueErrorView,
}

/// The mathematical content of an `InternalError`.
pub struct InternalErrorView {
    pub message: Option<Seq<char>>,
    pub source: Option<SourceView>,
}

/// A lower-level error of unknown concrete type, reduced to the two renderings
/// an `InternalError` reads from it: its plain display text and its structured
/// debug text.
pub struct OpaqueError {
    display_text: String,
    debug_text: String,
}

impl View for OpaqueError {
    type V = OpaqueErrorView;

    closed spec fn view(&self) -> OpaqueErrorView {
        OpaqueErrorView { display: self.display_text@, debug: self.debug_text@ }
    }
}

impl OpaqueError {
    /// Wraps the two renderings of a lower-level error.
    pub fn new(display_text: String, debug_text: String) -> (r: OpaqueError)
        ensures
            r@ == (OpaqueErrorView { display: display_text@, debug: debug_text@ }),
    {
        OpaqueError { display_text, debug_text }
    }

    /// The plain rendering of the wrapped error.
    pub fn display_string(&self) -> (r: String)
        ensures
            r@ == self@.display,
    {
        self.display_text.clone()
    }

    /// The structured debug rendering of the wrapped error.
    pub fn debug_string(&self) -> (r: String)
        ensures
            r@ == self@.debug,
    {
        self.debug_text.clone()
    }
}

struct Source {
    prefix: Option<String>,
    source: OpaqueError,
}

/// An error which is returned for reasons internal to the function.
///
/// This error is produced when a failure occurred within the function but the
/// failure is due to an internal implementation detail of the function. This
/// generally means that there is no specific information which can be returned
/// that would help the caller of the function recover or otherwise take
/// action.
pub struct InternalError {
    message: Option<String>,
    source: Option<Source>,
}

impl View for InternalError {
    type V = InternalErrorView;

    closed spec fn view(&self) -> InternalErrorView {
        InternalErrorView {
            message: match self.message {
                Option::Some(m) => Option::Some(m@),
                Option::None => Option::None,
            },
            source: match self.source {
                Option::Some(s) => Option::Some(
                    SourceView {
                        prefix: match s.prefix {
                            Option::Some(p) => Option::Some(p@),
                            Option::None => Option::None,
                        },
                        cause: s.source@,
                    },
                ),
                Option::None => Option::None,
            },
        }
    }
}

/// The shapes the four constructors produce: a message, a cause, or both;
/// a prefix only beside a cause and never beside a message.
pub open spec fn constructed_shape(v: InternalErrorView) -> bool {
    &&& v.message is Some || v.source is Some
    &&& (v.source is Some && v.source->0.prefix is Some ==> v.message is None)
}

/// The display rendering: the message verbatim when one is set; otherwise the
/// cause's display text, labelled by the prefix when one is set; otherwise,
/// for the shape no public constructor produces, the type's own name.
pub open spec fn display_spec(v: InternalErrorView) -> Seq<char> {
    match v.message {
        Option::Some(m) => m,
        Option::None => match v.source {
            Option::Some(s) => match s.prefix {
                Option::Some(p) => p + ": "@ + s.cause.display,
                Option::None => s.cause.display,
            },
            Option::None => "InternalError"@,
        },
    }
}

/// The structured debug rendering, in conventional record notation: the type
/// name, then the present fields in the fixed order message, prefix, source,
/// comma-separated, with string values quoted. Absent fields never appear;
/// with no field present the rendering is the type name alone.
pub open spec fn debug_spec(v: InternalErrorView) -> Seq<char> {
    match (v.message, v.source) {
        (Option::None, Option::None) => "InternalError"@,
        (Option::Some(m), Option::None) => "InternalError"@ + " { "@ + "message: "@ + quoted(m)
            + " }"@,
        (Option::None, Option::Some(s)) => match s.prefix {
            Option::None => "InternalError"@ + " { "@ + "source: "@ + s.cause.debug + " }"@,
            Option::Some(p) => "InternalError"@ + " { "@ + "prefix: "@ + quoted(p) + ", "@
                + "source: "@ + s.cause.debug + " }"@,
        },
        (Option::Some(m), Option::Some(s)) => match s.prefix {
            Option::None => "InternalError"@ + " { "@ + "message: "@ + quoted(m) + ", "@
                + "source: "@ + s.cause.debug + " }"@,
            Option::Some(p) => "InternalError"@ + " { "@ + "message: "@ + quoted(m) + ", "@
                + "prefix: "@ + quoted(p) + ", "@ + "source: "@ + s.cause.debug + " }"@,
        },
    }
}

impl InternalError {
    /// Constructs a new `InternalError` from a specified source error.
    ///
    /// The display rendering of this error will simply pass through the
    /// display text of the source unmodified.
    pub fn from_source(source: OpaqueError) -> (r: InternalError)
        ensures
            r@ == (InternalErrorView {
                message: Option::None,
                source: Option::Some(SourceView { prefix: Option::None, cause: source@ }),
            }),
            constructed_shape(r@),
    {
        InternalError {
            message: Option::None,
            source: Option::Some(Source { prefix: Option::None, source }),
        }
    }

    /// Constructs a new `InternalError` from a specified source error and
    /// message string.
    ///
    /// The display rendering of this error will be the message string
    /// provided.
    pub fn from_source_with_message(source: OpaqueError, message: String) -> (r: InternalError)
        ensures
            r@ == (InternalErrorView {
                message: Option::Some(message@),
                source: Option::Some(SourceView { prefix: Option::None, cause: source@ }),
            }),
            constructed_shape(r@),
    {
        InternalError {
            message: Option::Some(message),
            source: Option::Some(Source { prefix: Option::None, source }),
        }
    }

    /// Constructs a new `InternalError` from a specified source error and
    /// prefix string.
    ///
    /// The display rendering of this error will be constructed from the
    /// prefix and the source's display text, as `"{prefix}: {source}"`.
    pub fn from_source_with_prefix(source: OpaqueError, prefix: String) -> (r: InternalError)
        ensures
            r@ == (InternalErrorView {
                message: Option::None,
                source: Option::Some(SourceView { prefix: Option::Some(prefix@), cause: source@ }),
            }),
            constructed_shape(r@),
    {
        InternalError {
            message: Option::None,
            source: Option::Some(Source { prefix: Option::Some(prefix), source }),
        }
    }

    /// Constructs a new `InternalError` with a specified message string.
    ///
    /// The display rendering of this error will be the message string
    /// provided.
    pub fn with_message(message: String) -> (r: InternalError)
        ensures
            r@ == (InternalErrorView { message: Option::Some(message@), source: Option::None }),
            constructed_shape(r@),
    {
        InternalError { message: Option::Some(message), source: Option::None }
    }

    /// The display rendering (the safe, user-facing text).
    pub fn display_string(&self) -> (r: String)
        ensures
            r@ == display_spec(self@),
    {
        match &self.message {
            Option::Some(m) => m.clone(),
            Option::None => match &self.source {
                Option::Some(s) => match &s.prefix {
                    Option::Some(p) => {
                        let mut out = p.clone();
                        out.append(": ");
                        out.append(s.source.display_text.as_str());
                        proof {
                            assert(out@ =~= display_spec(self@));
                        }
                        out
                    },
                    Option::None => s.source.display_text.clone(),
                },
                Option::None => String::from_str("InternalError"),
            },
        }
    }

    /// The structured debug rendering (the verbose, diagnostic text).
    pub fn debug_string(&self) -> (r: String)
        ensures
            r@ == debug_spec(self@),
    {
        let mut out = String::from_str("InternalError");
        match (&self.message, &self.source) {
            (Option::None, Option::None) => {},
            (Option::Some(m), Option::None) => {
                out.append(" { ");
                out.append("message: ");
                append_quoted(&mut out, m.as_str());
                out.append(" }");
                proof {
                    assert(out@ =~= debug_spec(self@));
                }
            },
            (Option::None, Option::Some(s)) => {
                out.append(" { ");
                match &s.prefix {
                    Option::Some(p) => {
                        out.append("prefix: ");
                        append_quoted(&mut out, p.as_str());
                        out.append(", ");
                    },
                    Option::None => {},
                }
                out.append("source: ");
                out.append(s.source.debug_text.as_str());
                out.append(" }");
                proof {
                    assert(out@ =~= debug_spec(self@));
                }
            },
            (Option::Some(m), Option::Some(s)) => {
                out.append(" { ");
                out.append("message: ");
                append_quoted(&mut out, m.as_str());
                out.append(", ");
                match &s.prefix {
                    Option::Some(p) => {
                        out.append("prefix: ");
                        append_quoted(&mut out, p.as_str());
                        out.append(", ");
                    },
                    Option::None => {},
                }
                out.append("source: ");
                out.append(s.source.debug_text.as_str());
                out.append(" }");
                proof {
                    assert(out@ =~= debug_spec(self@));
                }
            },
        }
        out
    }

    /// Reduces the `InternalError` to its display string.
    ///
    /// If the error includes a source, the debug rendering is first emitted
    /// to the diagnostic sink, to preserve information that the conversion to
    /// the display string would otherwise drop. With no source, nothing is
    /// emitted. The error is consumed: this is its terminal operation.
    pub fn reduce_to_string<S: DiagnosticSink>(self, sink: &mut S) -> (r: String)
        ensures
            r@ == display_spec(self@),
            self@.source is Some ==> final(sink).emitted() == old(sink).emitted().push(
                debug_spec(self@),
            ),
            self@.source is None ==> final(sink).emitted() == old(sink).emitted(),
    {
        if self.source.is_some() {
            let text = self.debug_string();
            sink.emit(text);
        }
        self.display_string()
    }

    /// The immediate cause, when one is wrapped: exactly the wrapped cause
    /// object, not the prefix, which is display-only metadata.
    pub fn source(&self) -> (r: Option<&OpaqueError>)
        ensures
            self@.source is Some ==> r is Some && r->0@ == self@.source->0.cause,
            self@.source is None ==> r is None,
    {
        match &self.source {
            Option::Some(s) => Option::Some(&s.source),
            Option::None => Option::None,
        }
    }

    /// Consumes this error into an opaque causal error, whose display and
    /// debug texts are this error's own renderings; the result can be wrapped
    /// by another `InternalError`.
    pub fn into_source(self) -> (r: OpaqueError)
        ensures
            r@ == (OpaqueErrorView { display: display_spec(self@), debug: debug_spec(self@) }),
    {
        let display_text = self.display_string();
        let debug_text = self.debug_string();
        OpaqueError { display_text, debug_text }
    }
}

/// The fields present in the debug rendering, in the fixed order message,
/// prefix, source; an absent field contributes nothing.
pub open spec fn debug_fields(v: InternalErrorView) -> Seq<Seq<char>> {
    (if v.message is Some {
        seq!["message: "@ + quoted(v.message->0)]
    } else {
        Seq::empty()
    }) + (if v.source is Some && v.source->0.prefix is Some {
        seq!["prefix: "@ + quoted(v.source->0.prefix->0)]
    } else {
        Seq::empty()
    }) + (if v.source is Some {
        seq!["source: "@ + v.source->0.cause.debug]
    } else {
        Seq::empty()
    })
}

/// The entries joined by a comma and a space.
pub open spec fn comma_join(entries: Seq<Seq<char>>) -> Seq<char>
    decreases entries.len(),
{
    if entries.len() == 0 {
        Seq::empty()
    } else if entries.len() == 1 {
        entries[0]
    } else {
        entries[0] + ", "@ + comma_join(entries.drop_first())
    }
}

/// The debug rendering lists exactly the present fields, always in the fixed
/// order message, prefix, source: with no field present it is the type name
/// alone, and otherwise the type name followed by the present fields, joined
/// by commas, between braces.
pub proof fn lemma_debug_field_order(v: InternalErrorView)
    ensures
        debug_fields(v).len() == 0 ==> debug_spec(v) == "InternalError"@,
        debug_fields(v).len() > 0 ==> debug_spec(v) == "InternalError"@ + " { "@ + comma_join(
            debug_fields(v),
        ) + " }"@,
{
    let fs = debug_fields(v);
    match (v.message, v.source) {
        (Option::None, Option::None) => {
            assert(fs.len() == 0);
        },
        (Option::Some(m), Option::None) => {
            let a = "message: "@ + quoted(m);
            assert(fs =~= seq![a]);
            assert(comma_join(fs) == a);
            assert(debug_spec(v) =~= "InternalError"@ + " { "@ + comma_join(fs) + " }"@);
        },
        (Option::None, Option::Some(s)) => {
            let c = "source: "@ + s.cause.debug;
            match s.prefix {
                Option::None => {
                    assert(fs =~= seq![c]);
                    assert(comma_join(fs) == c);
                    assert(debug_spec(v) =~= "InternalError"@ + " { "@ + comma_join(fs) + " }"@);
                },
                Option::Some(p) => {
                    let b = "prefix: "@ + quoted(p);
                    assert(fs =~= seq![b, c]);
                    assert(fs.drop_first() =~= seq![c]);
                    assert(comma_join(fs) == b + ", "@ + comma_join(seq![c]));
                    assert(comma_join(fs) =~= b + ", "@ + c);
                    assert(debug_spec(v) =~= "InternalError"@ + " { "@ + comma_join(fs) + " }"@);
                },
            }
        },
        (Option::Some(m), Option::Some(s)) => {
            let a = "message: "@ + quoted(m);
            let c = "source: "@ + s.cause.debug;
            match s.prefix {
                Option::None => {
                    assert(fs =~= seq![a, c]);
                    assert(fs.drop_first() =~= seq![c]);
                    assert(comma_join(fs) == a + ", "@ + comma_join(seq![c]));
                    assert(comma_join(fs) =~= a + ", "@ + c);
                    assert(debug_spec(v) =~= "InternalError"@ + " { "@ + comma_join(fs) + " }"@);
                },
                Option::Some(p) => {
                    let b = "prefix: "@ + quoted(p);
                    assert(fs =~= seq![a, b, c]);
                    assert(fs.drop_first() =~= seq![b, c]);
                    assert(seq![b, c].drop_first() =~= seq![c]);
                    assert(comma_join(seq![b, c]) == b + ", "@ + comma_join(seq![c]));
                    assert(comma_join(fs) == a + ", "@ + comma_join(seq![b, c]));
                    assert(comma_join(fs) =~= a + ", "@ + (b + ", "@ + c));
                    assert(debug_spec(v) =~= "InternalError"@ + " { "@ + comma_join(fs) + " }"@);
                },
            }
        },
    }
}

/// The display rendering of `from_source(e)` equals `e`'s display text,
/// unchanged.
pub proof fn lemma_display_from_source(c: OpaqueErrorView)
    ensures
        display_spec(
            InternalErrorView {
                message: Option::None,
                source: Option::Some(SourceView { prefix: Option::None, cause: c }),
            },
        ) == c.display,
{
}

/// The display rendering of `from_source_with_message(e, m)` equals `m`.
pub proof fn lemma_display_from_source_with_message(c: OpaqueErrorView, m: Seq<char>)
    ensures
        display_spec(
            InternalErrorView {
                message: Option::Some(m),
                source: Option::Some(SourceView { prefix: Option::None, cause: c }),
            },
        ) == m,
{
}

/// The display rendering of `from_source_with_prefix(e, p)` equals the prefix,
/// a separating colon and space, and `e`'s display text.
pub proof fn lemma_display_from_source_with_prefix(c: OpaqueErrorView, p: Seq<char>)
    ensures
        display_spec(
            InternalErrorView {
                message: Option::None,
                source: Option::Some(SourceView { prefix: Option::Some(p), cause: c }),
            },
        ) == p + ": "@ + c.display,
{
}

/// The display rendering of `with_message(m)` equals `m`.
pub proof fn lemma_display_with_message(m: Seq<char>)
    ensures
        display_spec(InternalErrorView { message: Option::Some(m), source: Option::None }) == m,
{
}

} // verus!
