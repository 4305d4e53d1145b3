use kv_render::{default_kv_format, hidden_kv_format, LimitedSink, StringSink, VecSource};

fn source_of(pairs: &[(&str, &str)]) -> VecSource {
    let mut source = VecSource::new();
    for (key, value) in pairs {
        source.push_pair(key.to_string(), value.to_string());
    }
    source
}

#[test]
fn default_renders_three_pairs() {
    let source = source_of(&[("ip", "127.0.0.1"), ("port", "12345"), ("path", "/example")]);
    let (sink, outcome) = default_kv_format(StringSink::new(), &source);
    assert!(outcome.is_ok());
    assert_eq!(sink.into_string(), " ip=127.0.0.1 port=12345 path=/example");
}

#[test]
fn default_renders_empty_set_as_empty_string() {
    let source = VecSource::new();
    let (sink, outcome) = default_kv_format(StringSink::new(), &source);
    assert!(outcome.is_ok());
    assert_eq!(sink.into_string(), "");
}

#[test]
fn default_succeeds_on_empty_set_even_when_the_sink_rejects_everything() {
    let source = VecSource::new();
    let (sink, outcome) = default_kv_format(LimitedSink::new(0), &source);
    assert!(outcome.is_ok());
    assert_eq!(sink.into_string(), "");
}

#[test]
fn default_keeps_presentation_order() {
    let source = source_of(&[("zeta", "1"), ("beta", "2"), ("alpha", "3")]);
    let (sink, outcome) = default_kv_format(StringSink::new(), &source);
    assert!(outcome.is_ok());
    assert_eq!(sink.into_string(), " zeta=1 beta=2 alpha=3");
}

#[test]
fn default_passes_duplicate_keys_through() {
    let source = source_of(&[("key", "first"), ("key", "second")]);
    let (sink, outcome) = default_kv_format(StringSink::new(), &source);
    assert!(outcome.is_ok());
    assert_eq!(sink.into_string(), " key=first key=second");
}

#[test]
fn default_does_not_escape_or_quote() {
    let source = source_of(&[("msg", "a b=c"), ("", "")]);
    let (sink, outcome) = default_kv_format(StringSink::new(), &source);
    assert!(outcome.is_ok());
    assert_eq!(sink.into_string(), " msg=a b=c =");
}

#[test]
fn default_halts_at_the_first_rejected_write() {
    let source = source_of(&[("a", "1"), ("b", "2"), ("c", "3")]);
    let (sink, outcome) = default_kv_format(LimitedSink::new(1), &source);
    assert!(outcome.is_err());
    assert_eq!(sink.into_string(), " a=1");
}

#[test]
fn default_reports_failure_on_the_first_pair() {
    let source = source_of(&[("a", "1")]);
    let (sink, outcome) = default_kv_format(LimitedSink::new(0), &source);
    assert!(outcome.is_err());
    assert_eq!(sink.into_string(), "");
}

#[test]
fn default_writes_whole_pairs_only() {
    let source = source_of(&[("a", "1"), ("b", "2")]);
    let (sink, outcome) = default_kv_format(LimitedSink::new(2), &source);
    assert!(outcome.is_ok());
    assert_eq!(sink.into_string(), " a=1 b=2");
}

#[test]
fn default_keeps_the_failure_message() {
    let source = source_of(&[("a", "1")]);
    let (_, outcome) = default_kv_format(LimitedSink::new(0), &source);
    match outcome {
        Err(failure) => assert_eq!(failure.message, "sink rejected the write"),
        Ok(()) => panic!("the rejected write must surface as a failure"),
    }
}

#[test]
fn hidden_writes_nothing_and_succeeds() {
    let source = source_of(&[("ip", "127.0.0.1"), ("port", "12345")]);
    let (sink, outcome) = hidden_kv_format(StringSink::new(), &source);
    assert!(outcome.is_ok());
    assert_eq!(sink.into_string(), "");
}

#[test]
fn hidden_never_touches_the_sink_or_the_source() {
    // A traversal over this sink would fail at once; the null policy still
    // succeeds because it never drives the source at all.
    let source = source_of(&[("a", "1"), ("b", "2")]);
    let (sink, outcome) = hidden_kv_format(LimitedSink::new(0), &source);
    assert!(outcome.is_ok());
    assert_eq!(sink.into_string(), "");
}
