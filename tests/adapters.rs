use sod_log::{
    Level, LogDebugService, LogDisplayService, LogOptionalDebugService, LogOptionalDisplayService,
    Record,
};

fn record(level: Level, message: &str) -> Record {
    Record { level, message: message.to_string() }
}

#[derive(Debug, Clone, PartialEq)]
struct Event {
    id: u32,
    name: &'static str,
}

#[test]
fn display_info_scenario() {
    let service = LogDisplayService::info("my event: ");
    let mut out = Vec::new();
    let r = service.process("hello world!", &mut out);
    assert_eq!(r, Ok("hello world!"));
    assert_eq!(out, vec![record(Level::Info, "my event: hello world!")]);
}

#[test]
fn optional_debug_warn_none_emits_nothing() {
    let service = LogOptionalDebugService::warn("saw: ");
    let mut out = Vec::new();
    let r = service.process(None::<i32>, &mut out);
    assert_eq!(r, Ok(None));
    assert!(out.is_empty());
}

#[test]
fn optional_debug_warn_some_emits_one() {
    let service = LogOptionalDebugService::warn("saw: ");
    let mut out = Vec::new();
    let r = service.process(Some(42), &mut out);
    assert_eq!(r, Ok(Some(42)));
    assert_eq!(out, vec![record(Level::Warn, "saw: 42")]);
}

#[test]
fn empty_prefix_error_level() {
    let mut out = Vec::new();
    assert_eq!(LogDebugService::new(Level::Error, "").process(7, &mut out), Ok(7));
    assert_eq!(LogDisplayService::new(Level::Error, "").process(7, &mut out), Ok(7));
    assert_eq!(out, vec![record(Level::Error, "7"), record(Level::Error, "7")]);
}

#[test]
fn named_constructors_match_new_debug() {
    for p in ["", "x: ", "événement → "] {
        assert_eq!(LogDebugService::trace(p), LogDebugService::new(Level::Trace, p));
        assert_eq!(LogDebugService::debug(p), LogDebugService::new(Level::Debug, p));
        assert_eq!(LogDebugService::info(p), LogDebugService::new(Level::Info, p));
        assert_eq!(LogDebugService::warn(p), LogDebugService::new(Level::Warn, p));
        assert_eq!(LogDebugService::error(p), LogDebugService::new(Level::Error, p));
        assert_ne!(LogDebugService::error(p), LogDebugService::new(Level::Warn, p));
    }
}

#[test]
fn named_constructors_match_new_optional_debug() {
    for p in ["", "x: "] {
        assert_eq!(LogOptionalDebugService::trace(p), LogOptionalDebugService::new(Level::Trace, p));
        assert_eq!(LogOptionalDebugService::debug(p), LogOptionalDebugService::new(Level::Debug, p));
        assert_eq!(LogOptionalDebugService::info(p), LogOptionalDebugService::new(Level::Info, p));
        assert_eq!(LogOptionalDebugService::warn(p), LogOptionalDebugService::new(Level::Warn, p));
        assert_eq!(LogOptionalDebugService::error(p), LogOptionalDebugService::new(Level::Error, p));
    }
}

#[test]
fn named_constructors_match_new_display() {
    for p in ["", "x: "] {
        assert_eq!(LogDisplayService::trace(p), LogDisplayService::new(Level::Trace, p));
        assert_eq!(LogDisplayService::debug(p), LogDisplayService::new(Level::Debug, p));
        assert_eq!(LogDisplayService::info(p), LogDisplayService::new(Level::Info, p));
        assert_eq!(LogDisplayService::warn(p), LogDisplayService::new(Level::Warn, p));
        assert_eq!(LogDisplayService::error(p), LogDisplayService::new(Level::Error, p));
    }
}

#[test]
fn named_constructors_match_new_optional_display() {
    for p in ["", "x: "] {
        assert_eq!(LogOptionalDisplayService::trace(p), LogOptionalDisplayService::new(Level::Trace, p));
        assert_eq!(LogOptionalDisplayService::debug(p), LogOptionalDisplayService::new(Level::Debug, p));
        assert_eq!(LogOptionalDisplayService::info(p), LogOptionalDisplayService::new(Level::Info, p));
        assert_eq!(LogOptionalDisplayService::warn(p), LogOptionalDisplayService::new(Level::Warn, p));
        assert_eq!(LogOptionalDisplayService::error(p), LogOptionalDisplayService::new(Level::Error, p));
    }
}

#[test]
fn named_constructors_set_level_in_records() {
    let mut out = Vec::new();
    LogDisplayService::trace("").process(1, &mut out).unwrap();
    LogDisplayService::debug("").process(2, &mut out).unwrap();
    LogDisplayService::info("").process(3, &mut out).unwrap();
    LogDisplayService::warn("").process(4, &mut out).unwrap();
    LogDisplayService::error("").process(5, &mut out).unwrap();
    let levels: Vec<Level> = out.iter().map(|r| r.level).collect();
    assert_eq!(levels, vec![Level::Trace, Level::Debug, Level::Info, Level::Warn, Level::Error]);
}

#[test]
fn debug_process_returns_input_and_appends_after_existing() {
    let service = LogDebugService::info("event ");
    let mut out = vec![record(Level::Trace, "earlier")];
    let e = Event { id: 3, name: "start" };
    let r = service.process(e.clone(), &mut out);
    assert_eq!(r, Ok(e));
    assert_eq!(
        out,
        vec![
            record(Level::Trace, "earlier"),
            record(Level::Info, "event Event { id: 3, name: \"start\" }"),
        ]
    );
}

#[test]
fn debug_rendering_differs_from_display_rendering() {
    let mut out = Vec::new();
    LogDebugService::debug("v=").process("hi".to_string(), &mut out).unwrap();
    LogDisplayService::debug("v=").process("hi".to_string(), &mut out).unwrap();
    assert_eq!(out, vec![record(Level::Debug, "v=\"hi\""), record(Level::Debug, "v=hi")]);
}

#[test]
fn optional_display_none_and_some() {
    let service = LogOptionalDisplayService::info("got ");
    let mut out = Vec::new();
    assert_eq!(service.process(None::<&str>, &mut out), Ok(None));
    assert!(out.is_empty());
    assert_eq!(service.process(Some("x"), &mut out), Ok(Some("x")));
    assert_eq!(out, vec![record(Level::Info, "got x")]);
}

#[test]
fn optional_debug_some_string_is_quoted() {
    let service = LogOptionalDebugService::error("e: ");
    let mut out = Vec::new();
    assert_eq!(service.process(Some("x"), &mut out), Ok(Some("x")));
    assert_eq!(out, vec![record(Level::Error, "e: \"x\"")]);
}

#[test]
fn record_is_prefix_then_rendering() {
    assert_eq!(LogDebugService::warn("a: ").record("b"), record(Level::Warn, "a: b"));
    assert_eq!(LogOptionalDebugService::info("").record("b"), record(Level::Info, "b"));
    assert_eq!(LogDisplayService::trace("é").record(""), record(Level::Trace, "é"));
    assert_eq!(LogOptionalDisplayService::debug("[").record("1]"), record(Level::Debug, "[1]"));
}

#[test]
fn process_twice_emits_two_records() {
    let service = LogDisplayService::warn("n=");
    let mut out = Vec::new();
    assert_eq!(service.process(1u8, &mut out), Ok(1u8));
    assert_eq!(service.process(2u8, &mut out), Ok(2u8));
    assert_eq!(out, vec![record(Level::Warn, "n=1"), record(Level::Warn, "n=2")]);
}

#[test]
fn levels_are_ordered_by_urgency() {
    assert!(Level::Trace < Level::Debug);
    assert!(Level::Debug < Level::Info);
    assert!(Level::Info < Level::Warn);
    assert!(Level::Warn < Level::Error);
}
