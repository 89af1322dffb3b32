use fetch_with_render::errors::RenderError;
use fetch_with_render::session::Registry;
use fetch_with_render::session::Session;
use fetch_with_render::tick::tick;
use fetch_with_render::tick::TickAction;
use fetch_with_render::tick::TickEvent;

fn session(id: u64, start_ms: u64, timeout_ms: u64) -> Session {
    Session { id, start_ms, timeout_ms }
}

#[test]
fn register_rejects_a_live_identifier() {
    let mut reg = Registry::new();
    assert!(reg.is_empty());
    assert!(reg.register(session(7, 0, 5000)));
    assert!(!reg.register(session(7, 10, 100)));
    assert_eq!(reg.len(), 1);
    assert!(reg.contains(7));
}

#[test]
fn removed_identifier_is_free_for_an_unrelated_session() {
    let mut reg = Registry::new();
    assert!(reg.register(session(7, 0, 5000)));
    assert!(reg.register(session(8, 0, 5000)));
    reg.remove(7);
    assert!(!reg.contains(7));
    assert!(reg.contains(8));
    assert_eq!(reg.len(), 1);
    assert!(reg.register(session(7, 99, 250)));
    assert_eq!(reg.len(), 2);
    assert_eq!(reg.get(1).start_ms, 99);
    assert_eq!(reg.get(1).timeout_ms, 250);
}

#[test]
fn a_result_in_the_slot_is_delivered_as_success() {
    let mut reg = Registry::new();
    assert!(reg.register(session(1, 0, 5000)));
    let slots = vec![Some(String::from("<html>done</html>"))];
    let out = tick(&mut reg, &slots, 10, &TickEvent::Other);
    assert_eq!(out.len(), 1);
    assert_eq!(out[0].0, 1);
    assert!(matches!(&out[0].1, TickAction::Deliver(Ok(h)) if h == "<html>done</html>"));
    assert!(reg.is_empty());
}

#[test]
fn success_wins_over_timeout_in_the_same_tick() {
    let mut reg = Registry::new();
    assert!(reg.register(session(1, 0, 100)));
    let slots = vec![Some(String::from("<p>late but here</p>"))];
    let out = tick(&mut reg, &slots, 5000, &TickEvent::EventsCleared);
    assert!(matches!(&out[0].1, TickAction::Deliver(Ok(h)) if h == "<p>late but here</p>"));
    assert!(reg.is_empty());
}

#[test]
fn timeout_fires_only_after_the_deadline() {
    let mut reg = Registry::new();
    assert!(reg.register(session(1, 0, 100)));

    let out = tick(&mut reg, &vec![None], 100, &TickEvent::Other);
    assert!(matches!(out[0].1, TickAction::Wait));
    assert_eq!(reg.len(), 1);

    let out = tick(&mut reg, &vec![None], 101, &TickEvent::Other);
    assert!(matches!(
        &out[0].1,
        TickAction::Deliver(Err(RenderError::Timeout))
    ));
    assert!(reg.is_empty());
}

#[test]
fn close_before_any_result_is_a_failure() {
    let mut reg = Registry::new();
    assert!(reg.register(session(3, 0, 5000)));
    let out = tick(&mut reg, &vec![None], 10, &TickEvent::CloseRequested(3));
    assert!(matches!(
        &out[0].1,
        TickAction::Deliver(Err(RenderError::Unknown(m))) if m == "Window closed before HTML captured"
    ));
    assert!(reg.is_empty());
}

#[test]
fn a_close_for_another_surface_is_not_ours() {
    let mut reg = Registry::new();
    assert!(reg.register(session(3, 0, 5000)));
    let out = tick(&mut reg, &vec![None], 10, &TickEvent::CloseRequested(4));
    assert!(matches!(out[0].1, TickAction::Wait));
    assert_eq!(reg.len(), 1);
}

#[test]
fn events_drained_marker_polls_the_page() {
    let mut reg = Registry::new();
    assert!(reg.register(session(5, 0, 5000)));
    let out = tick(&mut reg, &vec![None], 10, &TickEvent::EventsCleared);
    assert!(matches!(out[0].1, TickAction::Evaluate));
    assert_eq!(reg.len(), 1);
}

#[test]
fn sessions_are_multiplexed_independently() {
    let mut reg = Registry::new();
    assert!(reg.register(session(1, 0, 100)));
    assert!(reg.register(session(2, 0, 5000)));
    assert!(reg.register(session(3, 0, 5000)));
    let slots = vec![None, Some(String::from("<div/>")), None];
    let out = tick(&mut reg, &slots, 200, &TickEvent::EventsCleared);
    assert_eq!(out.len(), 3);
    assert!(matches!(&out[0].1, TickAction::Deliver(Err(RenderError::Timeout))));
    assert!(matches!(&out[1].1, TickAction::Deliver(Ok(h)) if h == "<div/>"));
    assert!(matches!(out[2].1, TickAction::Evaluate));
    assert_eq!(reg.len(), 1);
    assert!(reg.contains(3));
    assert!(!reg.contains(1));
    assert!(!reg.contains(2));
}

#[test]
fn a_session_never_sees_a_second_delivery() {
    // Drive a session to its timeout and keep ticking: the delivery happens
    // exactly once, because the delivered session leaves the registry.
    let mut reg = Registry::new();
    assert!(reg.register(session(9, 0, 100)));
    let mut deliveries = 0;
    let mut now: u64 = 0;
    for _ in 0..20 {
        now += 25;
        let mut slots = Vec::new();
        for _ in 0..reg.len() {
            slots.push(None);
        }
        let out = tick(&mut reg, &slots, now, &TickEvent::EventsCleared);
        for (_, action) in out {
            if matches!(action, TickAction::Deliver(_)) {
                deliveries += 1;
            }
        }
    }
    assert_eq!(deliveries, 1);
    assert!(reg.is_empty());
}

#[test]
fn timeout_is_delivered_within_one_tick_of_the_deadline() {
    // A page that never signals readiness and is never closed: with a 100 ms
    // timeout and a 50 ms polling interval the failure arrives after the
    // deadline but no later than one interval past it.
    let mut reg = Registry::new();
    assert!(reg.register(session(2, 0, 100)));
    let mut delivered_at: Option<u64> = None;
    let mut now: u64 = 0;
    while delivered_at.is_none() && now <= 500 {
        now += 50;
        let out = tick(&mut reg, &vec![None], now, &TickEvent::EventsCleared);
        if !out.is_empty() {
            if let TickAction::Deliver(outcome) = &out[0].1 {
                assert!(matches!(outcome, Err(RenderError::Timeout)));
                delivered_at = Some(now);
            }
        }
        if reg.is_empty() {
            break;
        }
    }
    let t = delivered_at.expect("the session must time out");
    assert!(t > 100);
    assert!(t <= 150);
}
