use micmute::error::{MiMuError, MiMuErrorKind, MiMuWrappedError};

fn leaf(message: &str) -> MiMuError {
    MiMuError::new(MiMuErrorKind::Misc, message.to_owned())
}

fn wrapping(message: &str, cause: MiMuError) -> MiMuError {
    MiMuError::wrap(
        MiMuErrorKind::Misc,
        message.to_owned(),
        MiMuWrappedError::MiMu(Box::new(cause)),
    )
}

#[test]
fn display_returns_the_message() {
    let e = leaf("anything goes here");
    assert_eq!(e.to_display_string(), "anything goes here");
}

#[test]
fn display_of_empty_message_is_empty() {
    let e = leaf("");
    assert_eq!(e.to_display_string(), "");
    assert_eq!(e.to_debug_string(), "");
}

#[test]
fn display_never_shows_the_cause() {
    let outer = wrapping("outer message", leaf("inner message"));
    assert_eq!(outer.to_display_string(), "outer message");
}

#[test]
fn debug_of_leaf_is_the_message() {
    let e = leaf("just the message");
    assert_eq!(e.to_debug_string(), "just the message");
}

#[test]
fn debug_of_wrapping_error_carries_the_tagged_cause() {
    let cause = wrapping("middle", leaf("bottom"));
    let cause_debug = cause.to_debug_string();
    let outer = wrapping("top", cause);
    let debug = outer.to_debug_string();
    assert!(debug.starts_with("top"));
    let expected_tail = format!("[WRAPPED ERROR]: {}", cause_debug);
    assert!(debug.contains(&expected_tail));
    assert_eq!(debug, format!("top{}", expected_tail));
}

#[test]
fn leaf_source_is_empty() {
    let e = leaf("no cause");
    assert!(e.source().is_none());
}

#[test]
fn two_level_source_is_empty() {
    let outer = wrapping("outer", leaf("inner"));
    assert!(outer.source().is_none());
}

#[test]
fn source_skips_down_the_whole_chain() {
    let chain = wrapping("first", wrapping("second", leaf("third")));
    assert!(chain.source().is_none());
}

#[test]
fn display_rendering_is_idempotent() {
    let e = leaf("same every time");
    let first = e.to_display_string();
    let second = e.to_display_string();
    assert_eq!(first, second);
}

#[test]
fn debug_rendering_is_idempotent() {
    let e = wrapping("again", leaf("and again"));
    let first = e.to_debug_string();
    let second = e.to_debug_string();
    assert_eq!(first, second);
}

#[test]
fn disk_full_scenario() {
    let e = leaf("disk full");
    assert_eq!(e.to_display_string(), "disk full");
    assert_eq!(e.to_debug_string(), "disk full");
    assert!(e.source().is_none());
}

#[test]
fn save_failed_scenario() {
    let inner = leaf("permission denied");
    let outer = MiMuError::wrap(
        MiMuErrorKind::Misc,
        "save failed".to_owned(),
        MiMuWrappedError::MiMu(Box::new(inner)),
    );
    assert_eq!(
        outer.to_debug_string(),
        "save failed[WRAPPED ERROR]: permission denied"
    );
}

#[test]
fn three_level_debug_nests_twice() {
    let chain = wrapping("a", wrapping("b", leaf("c")));
    assert_eq!(
        chain.to_debug_string(),
        "a[WRAPPED ERROR]: b[WRAPPED ERROR]: c"
    );
}

#[test]
fn kind_renders_its_name() {
    assert_eq!(MiMuErrorKind::Misc.to_display_string(), "Misc");
}

#[test]
fn wrapped_error_forwards_renderings_to_the_inner_error() {
    let w = MiMuWrappedError::MiMu(Box::new(wrapping("outer", leaf("inner"))));
    assert_eq!(w.to_display_string(), "outer");
    assert_eq!(w.to_debug_string(), "outer[WRAPPED ERROR]: inner");
    assert!(w.source().is_none());
}

#[test]
fn wrapped_error_exposes_the_inner_error() {
    let w = MiMuWrappedError::MiMu(Box::new(leaf("held inside")));
    assert_eq!(w.inner().to_display_string(), "held inside");
}
