use didweb::errors::ErrorKind;
use didweb::errors::SetupError;
use didweb::errors::SetupResult;

#[test]
fn test_error_display() {
    let err = SetupError::config("test error", "test source");
    assert_eq!(err.render_summary(), "Configuration error: test error");
}

#[test]
fn test_error_construction() {
    let err = SetupError::config("test error", "test source");
    match err {
        SetupError::Config { msg, src, err_span } => {
            assert_eq!(msg, "test error");
            assert_eq!(src, "test source");
            assert_eq!(err_span, (0, "test source".len()));
        }
        _ => panic!("Wrong error variant"),
    }
}

fn all_kinds(msg: &str, src: &str) -> Vec<SetupError> {
    vec![
        SetupError::config(msg, src),
        SetupError::domain(msg, src),
        SetupError::document(msg, src),
        SetupError::fs(msg, src),
        SetupError::input(msg, src),
        SetupError::url(msg, src),
    ]
}

#[test]
fn labels_are_fixed_per_kind() {
    let labels = [
        "Configuration error",
        "Domain error",
        "DID document error",
        "Filesystem error",
        "Input error",
        "URL parse error",
    ];
    let errs = all_kinds("m", "s");
    for (err, label) in errs.iter().zip(labels.iter()) {
        assert_eq!(err.label(), *label);
        assert!(err.render_summary().starts_with(label));
    }
    let empty_msg = all_kinds("", "s");
    for (err, label) in empty_msg.iter().zip(labels.iter()) {
        assert!(err.render_summary().starts_with(label));
        assert_eq!(err.render_summary(), format!("{}: ", label));
    }
}

#[test]
fn codes_are_fixed_per_kind() {
    let codes = [
        "didweb::config",
        "didweb::domain",
        "didweb::document",
        "didweb::fs",
        "didweb::input",
        "didweb::url",
    ];
    let errs = all_kinds("m", "s");
    for (err, code) in errs.iter().zip(codes.iter()) {
        assert_eq!(err.code(), *code);
    }
}

#[test]
fn round_trip_of_fields() {
    let err = SetupError::config("test error", "test source");
    assert_eq!(err.render_summary(), "Configuration error: test error");
    let (src, span, label, msg) = err.render_diagnostic();
    assert_eq!(src, "test source");
    assert_eq!(span, (0, "test source".len()));
    assert_eq!(label, "Configuration error");
    assert_eq!(msg, "test error");
}

#[test]
fn kind_isolation() {
    let errs = all_kinds("same message", "same source");
    for a in &errs {
        assert_eq!(a.message(), "same message");
        assert_eq!(a.source_text(), "same source");
        assert_eq!(a.span(), (0, "same source".len()));
    }
    for (i, a) in errs.iter().enumerate() {
        for (j, b) in errs.iter().enumerate() {
            if i != j {
                assert_ne!(a.kind(), b.kind());
                assert_ne!(a.label(), b.label());
                assert_ne!(a.code(), b.code());
            } else {
                assert_eq!(a.kind(), b.kind());
            }
        }
    }
}

#[test]
fn rendering_leaves_the_error_unchanged() {
    let err = SetupError::url("bad scheme", "htp://x");
    let first = err.render_summary();
    let second = err.render_summary();
    assert_eq!(first, second);
    let d1 = err.render_diagnostic();
    let d2 = err.render_diagnostic();
    assert_eq!(d1, d2);
    assert_eq!(err.kind(), ErrorKind::Url);
    match err {
        SetupError::Url { msg, src, err_span } => {
            assert_eq!(msg, "bad scheme");
            assert_eq!(src, "htp://x");
            assert_eq!(err_span, (0, "htp://x".len()));
        }
        _ => panic!("Wrong error variant"),
    }
}

#[test]
fn empty_inputs() {
    let labels = [
        "Configuration error",
        "Domain error",
        "DID document error",
        "Filesystem error",
        "Input error",
        "URL parse error",
    ];
    let errs = all_kinds("", "");
    for (err, label) in errs.iter().zip(labels.iter()) {
        assert_eq!(err.span(), (0, 0));
        assert_eq!(err.render_summary(), format!("{}: ", label));
        assert_eq!(err.message(), "");
        assert_eq!(err.source_text(), "");
    }
}

#[test]
fn non_ascii_source_spans_whole_text_in_bytes() {
    let src = "dömäin — tæxt";
    assert!(src.len() > src.chars().count());
    let err = SetupError::domain("invalid name", src);
    let (stored, span, _, _) = err.render_diagnostic();
    assert_eq!(span, (0, src.len()));
    assert_eq!(&stored[span.0..span.1], src);
}

fn stage(ok: bool) -> SetupResult<u32> {
    if ok {
        Ok(7)
    } else {
        Err(SetupError::input("empty name", ""))
    }
}

#[test]
fn result_alias_carries_the_error() {
    assert_eq!(stage(true).unwrap(), 7);
    let err = stage(false).unwrap_err();
    assert_eq!(err.render_summary(), "Input error: empty name");
    assert_eq!(err.code(), "didweb::input");
}
