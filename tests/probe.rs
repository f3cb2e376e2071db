use link_checker::outcome::UrlState;
use link_checker::probe::{classify, ProbeEvent, Race};
use link_checker::resolve::build_url;

fn about() -> link_checker::resolve::ResolvedUrl {
    build_url("example.com", "/about").unwrap()
}

#[test]
fn ok_response_first_is_accessible() {
    let mut race = Race::new(about());
    assert!(!race.is_decided());
    let s = race.on_event(ProbeEvent::Responded(200)).unwrap();
    assert_eq!(s, UrlState::Accessible(about()));
    assert_eq!(s.render(), "\u{2713} http://example.com/about");
    assert!(race.is_decided());
    assert_eq!(race.on_event(ProbeEvent::Elapsed), None);
}

#[test]
fn timer_first_is_timed_out_and_late_response_is_discarded() {
    let mut race = Race::new(about());
    assert_eq!(race.on_event(ProbeEvent::Elapsed), Some(UrlState::TimedOut(about())));
    assert_eq!(race.on_event(ProbeEvent::Responded(200)), None);
}

#[test]
fn other_statuses_are_bad() {
    for code in [404u16, 301, 500, 204] {
        assert_eq!(
            classify(about(), ProbeEvent::Responded(code)),
            UrlState::BadStatus(about(), code)
        );
    }
}

#[test]
fn failed_request_is_connection_failed() {
    let mut race = Race::new(about());
    assert_eq!(race.on_event(ProbeEvent::Failed), Some(UrlState::ConnectionFailed(about())));
    assert_eq!(race.on_event(ProbeEvent::Elapsed), None);
}

#[test]
fn same_first_event_gives_same_outcome() {
    let mut a = Race::new(about());
    let mut b = Race::new(about());
    let first_a = a.on_event(ProbeEvent::Responded(404));
    let first_b = b.on_event(ProbeEvent::Responded(404));
    assert_eq!(b.on_event(ProbeEvent::Elapsed), None);
    assert_eq!(first_a, first_b);
    assert_eq!(first_a, Some(UrlState::BadStatus(about(), 404)));
}

#[test]
fn render_each_kind() {
    assert_eq!(
        UrlState::BadStatus(about(), 404).render(),
        "x http://example.com/about (404 Not Found)"
    );
    assert_eq!(
        UrlState::BadStatus(about(), 301).render(),
        "x http://example.com/about (301 Moved Permanently)"
    );
    assert_eq!(
        UrlState::BadStatus(about(), 500).render(),
        "x http://example.com/about (500 Internal Server Error)"
    );
    assert_eq!(
        UrlState::BadStatus(about(), 99).render(),
        "x http://example.com/about (99 <unknown status code>)"
    );
    assert_eq!(
        UrlState::BadStatus(about(), 599).render(),
        "x http://example.com/about (599 <unknown status code>)"
    );
    assert_eq!(
        UrlState::ConnectionFailed(about()).render(),
        "x http://example.com/about (connection failed)"
    );
    assert_eq!(UrlState::TimedOut(about()).render(), "x http://example.com/about (timed out)");
    assert_eq!(
        UrlState::Malformed("http://[::1".to_string()).render(),
        "x http://[::1 (malformed)"
    );
}
