use kiss_ui::handle::Handle;
use kiss_ui::lifecycle::{kiss_running, Phase, Toolkit};

fn running_toolkit() -> Toolkit {
    let mut toolkit = Toolkit::new();
    toolkit.advance(0);
    toolkit.advance(0);
    toolkit.advance(0);
    toolkit
}

#[test]
fn new_toolkit_is_closed() {
    let toolkit = Toolkit::new();
    assert_eq!(toolkit.phase(), Phase::Closed);
    assert!(!kiss_running(&toolkit));
}

#[test]
fn phases_follow_in_order() {
    let mut toolkit = Toolkit::new();
    assert_eq!(toolkit.advance(0), Phase::Opening);
    assert_eq!(toolkit.advance(0), Phase::Configuring);
    assert_eq!(toolkit.advance(0), Phase::Showing);
    assert_eq!(toolkit.advance(0), Phase::Looping);
    assert_eq!(toolkit.advance(0), Phase::Closing);
    assert_eq!(toolkit.advance(0), Phase::Closed);
    assert_eq!(toolkit.phase(), Phase::Closed);
}

#[test]
fn advance_returns_the_current_phase() {
    let mut toolkit = Toolkit::new();
    for _ in 0..12 {
        let phase = toolkit.advance(0);
        assert_eq!(phase, toolkit.phase());
    }
    assert_eq!(toolkit.phase(), Phase::Closed);
}

#[test]
fn status_matters_only_while_opening() {
    let mut toolkit = Toolkit::new();
    assert_eq!(toolkit.advance(-1), Phase::Opening);
    assert_eq!(toolkit.advance(0), Phase::Configuring);
    assert_eq!(toolkit.advance(7), Phase::Showing);
    assert_eq!(toolkit.advance(1), Phase::Looping);
    assert_eq!(toolkit.advance(-3), Phase::Closing);
    assert_eq!(toolkit.advance(2), Phase::Closed);
}

#[test]
fn running_from_showing_until_shutdown_returns() {
    let mut toolkit = Toolkit::new();
    let mut seen = Vec::new();
    for _ in 0..6 {
        let phase = toolkit.advance(0);
        seen.push((phase, kiss_running(&toolkit)));
    }
    assert_eq!(
        seen,
        vec![
            (Phase::Opening, false),
            (Phase::Configuring, false),
            (Phase::Showing, true),
            (Phase::Looping, true),
            (Phase::Closing, true),
            (Phase::Closed, false),
        ]
    );
}

#[test]
fn running_toolkit_stores_and_loads() {
    let mut toolkit = running_toolkit();
    let widget = Handle::from_addr(0x40);
    assert_eq!(toolkit.load("main"), None);
    assert_eq!(toolkit.store(String::from("main"), widget), None);
    assert_eq!(toolkit.load("main"), Some(widget));
    assert_eq!(toolkit.phase(), Phase::Showing);
}

#[test]
fn running_toolkit_replaces_and_returns_previous() {
    let mut toolkit = running_toolkit();
    let first = Handle::from_addr(0x40);
    let second = Handle::from_addr(0x80);
    toolkit.store(String::from("main"), first);
    assert_eq!(toolkit.store(String::from("main"), second), Some(first));
    assert_eq!(toolkit.load("main"), Some(second));
}

#[test]
fn store_survives_the_running_phases() {
    let mut toolkit = running_toolkit();
    let widget = Handle::from_addr(0x40);
    toolkit.store(String::from("main"), widget);
    assert_eq!(toolkit.advance(0), Phase::Looping);
    assert_eq!(toolkit.load("main"), Some(widget));
    assert_eq!(toolkit.advance(0), Phase::Closing);
    assert_eq!(toolkit.load("main"), Some(widget));
}

#[test]
fn store_is_empty_after_the_lifecycle() {
    let mut toolkit = running_toolkit();
    toolkit.store(String::from("main"), Handle::from_addr(0x40));
    toolkit.store(String::from("side"), Handle::from_addr(0x44));
    toolkit.advance(0);
    toolkit.advance(0);
    assert_eq!(toolkit.advance(0), Phase::Closed);
    assert!(!kiss_running(&toolkit));
    toolkit.advance(0);
    toolkit.advance(0);
    assert_eq!(toolkit.advance(0), Phase::Showing);
    assert_eq!(toolkit.load("main"), None);
    assert_eq!(toolkit.load("side"), None);
}
