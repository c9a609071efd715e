use augrim::InternalError;
use augrim::OpaqueError;
use augrim::VecSink;

/// Tests that errors constructed with `InternalError::from_source` return a debug string of
/// the form `format!("InternalError { {:?} }", source)`.
#[test]
fn test_debug_from_source() {
    let msg = "test message";
    let debug = "InternalError { source: InternalError { message: \"test message\" } }";
    let err = InternalError::from_source(InternalError::with_message(msg.to_string()).into_source());
    assert_eq!(err.debug_string(), debug);
}

/// Tests that errors constructed with `InternalError::from_source_with_message` return a debug
/// string of the form `format!("InternalError { message: {:?}, source: {:?} }", message,
/// source)`.
#[test]
fn test_debug_from_source_with_message() {
    let msg = "test message";
    let debug = "InternalError { message: \"test message\", source: InternalError { message: \"unused\" } }";
    let err = InternalError::from_source_with_message(
        InternalError::with_message("unused".to_string()).into_source(),
        msg.to_string(),
    );
    assert_eq!(err.debug_string(), debug);
}

/// Tests that errors constructed with `InternalError::from_source_with_prefix` return a debug
/// string of the form `format!("InternalError { prefix: {:?}, source: {:?} }", prefix,
/// source)`.
#[test]
fn test_debug_from_source_with_prefix() {
    let prefix = "test prefix";
    let msg = "test message";
    let debug = "InternalError { prefix: \"test prefix\", source: InternalError { message: \"test message\" } }";
    let err = InternalError::from_source_with_prefix(
        InternalError::with_message(msg.to_string()).into_source(),
        prefix.to_string(),
    );
    assert_eq!(err.debug_string(), debug);
}

/// Tests that errors constructed with `InternalError::with_message` return a debug
/// string of the form `format!("InternalError { message: {:?} }", message)`.
#[test]
fn test_debug_with_message() {
    let msg = "test message";
    let debug = "InternalError { message: \"test message\" }";
    let err = InternalError::with_message(msg.to_string());
    assert_eq!(err.debug_string(), debug);
}

/// Tests that error constructed with `InternalError::from_source` return a display
/// string which is the same as the source's display string.
#[test]
fn test_display_from_source() {
    let msg = "test message";
    let err = InternalError::from_source(InternalError::with_message(msg.to_string()).into_source());
    assert_eq!(err.display_string(), msg);
}

/// Tests that error constructed with `InternalError::from_source_with_message` return
/// message as the display string.
#[test]
fn test_display_from_source_with_message() {
    let msg = "test message";
    let err = InternalError::from_source_with_message(
        InternalError::with_message("unused".to_string()).into_source(),
        msg.to_string(),
    );
    assert_eq!(err.display_string(), msg);
}

/// Tests that error constructed with `InternalError::from_source_with_message` return
/// a display string of the form `format!("{}: {}", prefix, source)`.
#[test]
fn test_display_from_source_with_prefix() {
    let prefix = "test prefix";
    let msg = "test message";
    let err = InternalError::from_source_with_prefix(
        InternalError::with_message(msg.to_string()).into_source(),
        prefix.to_string(),
    );
    assert_eq!(err.display_string(), format!("{}: {}", prefix, msg));
}

/// Tests that error constructed with `InternalError::with_message` return message as the
/// display string.
#[test]
fn test_display_with_message() {
    let msg = "test message";
    let err = InternalError::with_message(msg.to_string());
    assert_eq!(err.display_string(), msg);
}

/// An error built from an external cause passes that cause's display text
/// through unchanged.
#[test]
fn test_display_from_external_cause() {
    let cause = OpaqueError::new("io error".to_string(), "Io { kind: Other }".to_string());
    let err = InternalError::from_source(cause);
    assert_eq!(err.display_string(), "io error");
    assert_eq!(
        err.debug_string(),
        "InternalError { source: Io { kind: Other } }"
    );
}

/// A prefix labels the cause's display text as `"{prefix}: {cause}"`.
#[test]
fn test_display_prefix_scenario() {
    let cause = InternalError::with_message("test message".to_string()).into_source();
    let err = InternalError::from_source_with_prefix(cause, "Could not open file".to_string());
    assert_eq!(err.display_string(), "Could not open file: test message");
}

/// Reducing an error with no cause returns its display text and emits nothing.
#[test]
fn test_reduce_to_string_without_source() {
    let mut sink = VecSink::new();
    let err = InternalError::with_message("oops".to_string());
    let text = err.reduce_to_string(&mut sink);
    assert_eq!(text, "oops");
    assert_eq!(sink.entries().len(), 0);
}

/// Reducing an error with a cause emits exactly one text, the debug
/// rendering, and then returns the display text.
#[test]
fn test_reduce_to_string_with_source() {
    let mut sink = VecSink::new();
    let cause = InternalError::with_message("test message".to_string()).into_source();
    let err = InternalError::from_source(cause);
    let text = err.reduce_to_string(&mut sink);
    assert_eq!(text, "test message");
    assert_eq!(sink.entries().len(), 1);
    assert_eq!(
        sink.entries()[0],
        "InternalError { source: InternalError { message: \"test message\" } }"
    );
}

/// Reducing an error with a message and a cause returns the message and still
/// emits the full debug rendering.
#[test]
fn test_reduce_to_string_with_source_and_message() {
    let mut sink = VecSink::new();
    let cause = InternalError::with_message("test message".to_string()).into_source();
    let err = InternalError::from_source_with_message(cause, "oops".to_string());
    let text = err.reduce_to_string(&mut sink);
    assert_eq!(text, "oops");
    assert_eq!(sink.entries().len(), 1);
    assert_eq!(
        sink.entries()[0],
        "InternalError { message: \"oops\", source: InternalError { message: \"test message\" } }"
    );
}

/// The source accessor returns exactly the wrapped cause, not the prefix.
#[test]
fn test_source_accessor() {
    let cause = OpaqueError::new("io error".to_string(), "Io".to_string());
    let err = InternalError::from_source_with_prefix(cause, "ctx".to_string());
    let got = err.source().expect("a source should be wrapped");
    assert_eq!(got.display_string(), "io error");
    assert_eq!(got.debug_string(), "Io");
}

/// The source accessor returns nothing when no cause is wrapped.
#[test]
fn test_source_accessor_none() {
    let err = InternalError::with_message("oops".to_string());
    assert!(err.source().is_none());
}

/// String values in the debug rendering are quoted, with quotes, backslashes
/// and control characters escaped.
#[test]
fn test_debug_escapes_message() {
    let err = InternalError::with_message("a \"b\" \\ c\n\t\r\0".to_string());
    assert_eq!(
        err.debug_string(),
        "InternalError { message: \"a \\\"b\\\" \\\\ c\\n\\t\\r\\0\" }"
    );
}

/// Empty strings are legal constructor arguments.
#[test]
fn test_empty_strings() {
    let err = InternalError::with_message(String::new());
    assert_eq!(err.display_string(), "");
    assert_eq!(err.debug_string(), "InternalError { message: \"\" }");

    let cause = InternalError::with_message(String::new()).into_source();
    let err = InternalError::from_source_with_prefix(cause, String::new());
    assert_eq!(err.display_string(), ": ");
}

/// Nesting errors as causes nests their structured debug output.
#[test]
fn test_debug_nested_twice() {
    let inner = InternalError::with_message("inner".to_string());
    let middle = InternalError::from_source_with_prefix(inner.into_source(), "mid".to_string());
    let outer = InternalError::from_source(middle.into_source());
    assert_eq!(
        outer.display_string(),
        "mid: inner"
    );
    assert_eq!(
        outer.debug_string(),
        "InternalError { source: InternalError { prefix: \"mid\", source: InternalError { message: \"inner\" } } }"
    );
}

/// A captured emission comes through the sink in order.
#[test]
fn test_vec_sink_orders_emissions() {
    let mut sink = VecSink::new();
    let first = InternalError::from_source(
        InternalError::with_message("one".to_string()).into_source(),
    );
    let second = InternalError::from_source(
        InternalError::with_message("two".to_string()).into_source(),
    );
    first.reduce_to_string(&mut sink);
    second.reduce_to_string(&mut sink);
    assert_eq!(sink.entries().len(), 2);
    assert_eq!(
        sink.entries()[0],
        "InternalError { source: InternalError { message: \"one\" } }"
    );
    assert_eq!(
        sink.entries()[1],
        "InternalError { source: InternalError { message: \"two\" } }"
    );
}
