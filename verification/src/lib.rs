//! An opaque "internal error" primitive.
//!
//! `InternalError` wraps a low-level failure whose details are not actionable
//! by the caller. It may carry a caller-supplied message, an opaque causal
//! error, and a prefix string that labels the cause when shown. The type is
//! immutable value data: constructed once, then only read, rendered, or
//! consumed into a final display string.

mod internal;
mod sink;
mod text;

pub use internal::InternalError;
pub use internal::InternalErrorView;
pub use internal::OpaqueError;
pub use internal::OpaqueErrorView;
pub use internal::SourceView;
pub use internal::comma_join;
pub use internal::constructed_shape;
pub use internal::debug_fields;
pub use internal::debug_spec;
pub use internal::display_spec;
pub use internal::lemma_debug_field_order;
pub use internal::lemma_display_from_source;
pub use internal::lemma_display_from_source_with_message;
pub use internal::lemma_display_from_source_with_prefix;
pub use internal::lemma_display_with_message;
pub use sink::DiagnosticSink;
pub use sink::VecSink;
pub use text::escaped;
pub use text::escaped_char;
pub use text::quoted;
