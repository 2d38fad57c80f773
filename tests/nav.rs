use ballast::document::LineKind;
use ballast::engine::FetchError;
use ballast::nav::{Ballast, NavState, HOME_PAGE};

#[test]
fn invalid_text_changes_nothing() {
    let mut b = Ballast::new();
    assert!(b.navigate_text("gopher://x/").is_err());
    assert!(b.navigate_text("no scheme").is_err());
    assert!(matches!(b.state(), NavState::Idle));
    assert_eq!(b.ticket(), 0);
    assert!(b.target().is_none());
}

#[test]
fn navigation_submits_and_result_makes_ready() {
    let mut b = Ballast::new();
    let s = b.navigate_text("nex://h/dir/").unwrap();
    assert!(!s.cancel_previous);
    assert_eq!(s.ticket, 1);
    assert_eq!(s.address.host(), "h");
    assert!(matches!(b.state(), NavState::Pending));
    b.receive(1, Ok("=> ./sub plain text\nbye".to_string()));
    assert!(matches!(b.state(), NavState::Ready));
    let d = b.document().unwrap();
    assert_eq!(d.line_count(), 2);
    assert_eq!(d.cached(), 0);
    match b.classify(0) {
        LineKind::Link(u) => {
            assert_eq!(u.text, "nex://h/dir/sub");
            let s = b.navigate_url(&u).unwrap();
            assert!(!s.cancel_previous);
            assert_eq!(s.ticket, 2);
            assert_eq!(s.address.selector(), "/dir/sub");
        }
        LineKind::NotALink => panic!("expected a link"),
    }
}

#[test]
fn stale_result_is_discarded() {
    let mut b = Ballast::new();
    let first = b.navigate_text("nex://one/").unwrap();
    let second = b.navigate_text("nex://two/").unwrap();
    assert!(second.cancel_previous);
    assert_ne!(first.ticket, second.ticket);
    b.receive(first.ticket, Ok("stale".to_string()));
    assert!(matches!(b.state(), NavState::Pending));
    assert!(b.document().is_none());
    b.receive(first.ticket, Err(FetchError::Cancelled));
    assert!(matches!(b.state(), NavState::Pending));
    b.receive(second.ticket, Ok("fresh".to_string()));
    assert!(matches!(b.state(), NavState::Ready));
    let d = b.document().unwrap();
    assert_eq!(d.line_text(0), "fresh");
    assert_eq!(d.source().text, "nex://two/");
}

#[test]
fn failure_is_shown_and_cancellation_is_not() {
    let mut b = Ballast::new();
    let s = b.navigate_text("nex://h/").unwrap();
    b.receive(s.ticket, Err(FetchError::Cancelled));
    assert!(matches!(b.state(), NavState::Pending));
    b.receive(s.ticket, Err(FetchError::ConnectionFailed("refused".to_string())));
    match b.state() {
        NavState::Failed(why) => assert_eq!(why, "refused"),
        other => panic!("unexpected {:?}", other),
    }
    let s = b.navigate_text("nex://h/").unwrap();
    assert!(!s.cancel_previous);
    b.receive(s.ticket, Err(FetchError::InvalidAddress));
    match b.state() {
        NavState::Failed(why) => assert_eq!(why, "invalid address"),
        other => panic!("unexpected {:?}", other),
    }
}

#[test]
fn foreign_link_is_not_fetched() {
    let mut b = Ballast::new();
    let s = b.navigate_text("nex://h/").unwrap();
    b.receive(s.ticket, Ok("=> gopher://x text here".to_string()));
    match b.classify(0) {
        LineKind::Link(u) => {
            assert!(b.navigate_url(&u).is_err());
            assert!(matches!(b.state(), NavState::Ready));
        }
        LineKind::NotALink => panic!("expected a link"),
    }
}

#[test]
fn home_page() {
    let mut b = Ballast::new();
    let s = b.do_home_page().unwrap();
    assert_eq!(s.address.host(), "nex.nightfall.city");
    assert_eq!(s.address.port(), 1900);
    assert_eq!(s.address.selector(), "/");
    assert_eq!(b.target().unwrap().text, HOME_PAGE);
}

#[test]
fn navigation_empties_the_link_cache() {
    let mut b = Ballast::new();
    let s = b.navigate_text("nex://h/").unwrap();
    b.receive(s.ticket, Ok("=> a A\nplain".to_string()));
    b.classify(0);
    b.classify(1);
    assert_eq!(b.document().unwrap().cached(), 2);
    let link = match b.classify(0) {
        LineKind::Link(u) => u,
        LineKind::NotALink => panic!("expected a link"),
    };
    b.navigate_url(&link).unwrap();
    assert_eq!(b.document().unwrap().cached(), 0);
    assert!(matches!(b.state(), NavState::Pending));
    let s = b.navigate_text("nex://g/").unwrap();
    assert!(s.cancel_previous);
    assert_eq!(b.document().unwrap().cached(), 0);
    assert!(b.navigate_text("gopher://x/").is_err());
    assert_eq!(b.document().unwrap().cached(), 0);
}
