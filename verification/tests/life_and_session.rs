use overlay::card_display::{
    CardDisplayManager, CardDisplayPhase, CardRef, PhaseDurations, RenderDirective,
};
use overlay::clock::TimeTick;
use overlay::life_tracker::{LifeTracker, Operation};

fn card(name: &str) -> CardRef {
    CardRef { name: name.to_string(), pitch: None }
}

#[test]
fn parse_update_reads_operator_and_magnitude() {
    assert!(matches!(LifeTracker::parse_update("-5"), Ok((Operation::Sub, 5))));
    assert!(matches!(LifeTracker::parse_update("+3"), Ok((Operation::Add, 3))));
    assert!(matches!(LifeTracker::parse_update("=28"), Ok((Operation::Equal, 28))));
}

#[test]
fn parse_update_rejects_malformed_tokens() {
    assert!(LifeTracker::parse_update("").is_err());
    assert!(LifeTracker::parse_update("5").is_err());
    assert!(LifeTracker::parse_update("*5").is_err());
    assert!(LifeTracker::parse_update("-").is_err());
    assert!(LifeTracker::parse_update("-5x").is_err());
    assert!(LifeTracker::parse_update("-4294967296").is_err());
}

#[test]
fn life_counts_down_one_unit_per_step_without_overshoot() {
    // one smoothing step every 5 frames
    let mut tracker = LifeTracker::build("40", 250_000, 50_000);
    assert!(tracker.update("-5").is_ok());
    assert_eq!(tracker.target(), 35);
    assert_eq!(tracker.displayed(), 40);
    let mut seen = Vec::new();
    for _frame in 0..40 {
        tracker.tick_display();
        seen.push(tracker.displayed());
    }
    // every fifth tick moves the displayed value by exactly one
    for (i, v) in seen.iter().enumerate() {
        let steps = (i as i32 + 1) / 5;
        let expected = if steps > 5 { 35 } else { 40 - steps };
        assert_eq!(*v, expected);
    }
    assert_eq!(tracker.displayed(), 35);
    tracker.tick_display();
    tracker.tick_display();
    tracker.tick_display();
    tracker.tick_display();
    tracker.tick_display();
    assert_eq!(tracker.displayed(), 35, "the displayed value never overshoots");
}

#[test]
fn life_subtraction_floors_at_zero() {
    let mut tracker = LifeTracker::build("3", 250_000, 50_000);
    assert!(tracker.update("-10").is_ok());
    assert_eq!(tracker.target(), 0);
}

#[test]
fn life_display_renders_decimal() {
    let tracker = LifeTracker::build("-7", 250_000, 50_000);
    assert_eq!(tracker.display(), "-7");
}

#[test]
fn single_card_walks_reveal_phases() {
    let start = TimeTick::new();
    let mut session = CardDisplayManager::new(&start, PhaseDurations::standard());
    session.add_card_to_queue(card("Sink Below"));
    let d = session.tick(TimeTick::build(2, 0));
    assert!(matches!(session.phase, CardDisplayPhase::CardBackRotatingOut));
    assert!(matches!(d, RenderDirective::BackRotatingOut { progress: 0 }));
    session.tick(TimeTick::build(2, 750_000));
    assert!(matches!(session.phase, CardDisplayPhase::CardFrontRotatingIn));
    let d = session.tick(TimeTick::build(3, 500_000));
    assert!(matches!(session.phase, CardDisplayPhase::Displaying));
    match d {
        RenderDirective::CardFlat { card } => assert_eq!(card.name, "Sink Below"),
        other => panic!("expected the card flat, got {:?}", other),
    }
}

#[test]
fn second_card_is_queued_and_reached_without_idling() {
    let start = TimeTick::new();
    let mut session = CardDisplayManager::new(&start, PhaseDurations::standard());
    session.add_card_to_queue(card("First"));
    session.tick(TimeTick::build(2, 0));
    session.tick(TimeTick::build(2, 750_000));
    session.tick(TimeTick::build(3, 500_000));
    assert!(matches!(session.phase, CardDisplayPhase::Displaying));
    // the second card arrives mid-display: queued, not dropped
    session.add_card_to_queue(card("Second"));
    assert_eq!(session.queue.len(), 1);
    // display time is up at 9.5s; the queue is non-empty, so the first
    // card rotates out rather than lingering
    session.tick(TimeTick::build(9, 500_000));
    assert!(matches!(session.phase, CardDisplayPhase::CardFrontRotatingOut));
    // after the rotate, the second card turns in directly: no Idle between
    let d = session.tick(TimeTick::build(10, 250_000));
    assert!(matches!(session.phase, CardDisplayPhase::CardFrontRotatingIn));
    match d {
        RenderDirective::FrontRotatingIn { card, .. } => assert_eq!(card.name, "Second"),
        other => panic!("expected the second card turning in, got {:?}", other),
    }
}

#[test]
fn zoom_while_idle_is_discarded() {
    let start = TimeTick::new();
    let mut session = CardDisplayManager::new(&start, PhaseDurations::standard());
    session.queue_zoom();
    assert!(!session.zoom);
    let d = session.tick(TimeTick::build(1, 0));
    assert!(matches!(session.phase, CardDisplayPhase::Idle));
    assert!(session.display_card.is_none());
    assert!(!session.zoom);
    assert!(matches!(d, RenderDirective::Placeholder));
}

#[test]
fn zoom_while_displaying_runs_the_zoom_cycle() {
    let start = TimeTick::new();
    let mut session = CardDisplayManager::new(&start, PhaseDurations::standard());
    session.add_card_to_queue(card("Zoomed"));
    session.tick(TimeTick::build(0, 0));
    session.tick(TimeTick::build(0, 750_000));
    session.tick(TimeTick::build(1, 500_000));
    assert!(matches!(session.phase, CardDisplayPhase::Displaying));
    session.queue_zoom();
    assert!(session.zoom);
    // a second request while one is pending changes nothing
    session.queue_zoom();
    assert!(session.zoom);
    let d = session.tick(TimeTick::build(2, 0));
    assert!(matches!(session.phase, CardDisplayPhase::ZoomingIn));
    assert!(matches!(d, RenderDirective::Zooming { .. }));
    // half way through the two-second zoom the motion is half done
    let d = session.tick(TimeTick::build(3, 0));
    match d {
        RenderDirective::Zooming { progress, .. } => assert_eq!(progress, 500_000),
        other => panic!("expected zooming, got {:?}", other),
    }
    session.tick(TimeTick::build(4, 0));
    assert!(matches!(session.phase, CardDisplayPhase::ZoomDisplaying));
    session.tick(TimeTick::build(7, 0));
    assert!(matches!(session.phase, CardDisplayPhase::ZoomingOut));
    session.tick(TimeTick::build(9, 0));
    assert!(matches!(session.phase, CardDisplayPhase::PostZoom));
    session.tick(TimeTick::build(10, 0));
    assert!(matches!(session.phase, CardDisplayPhase::CardFrontRotatingOut));
}

#[test]
fn idle_queue_empty_card_retires_fully() {
    let start = TimeTick::new();
    let mut session = CardDisplayManager::new(&start, PhaseDurations::standard());
    session.add_card_to_queue(card("Lone"));
    session.tick(TimeTick::build(0, 0));
    session.tick(TimeTick::build(0, 750_000));
    session.tick(TimeTick::build(1, 500_000));
    assert!(matches!(session.phase, CardDisplayPhase::Displaying));
    // display runs out at 7.5s with nothing queued: extended display
    session.tick(TimeTick::build(7, 500_000));
    assert!(matches!(session.phase, CardDisplayPhase::ExtendedDisplaying));
    // extended runs out twelve seconds later: rotate out, back in, idle
    session.tick(TimeTick::build(19, 500_000));
    assert!(matches!(session.phase, CardDisplayPhase::CardFrontRotatingOut));
    session.tick(TimeTick::build(20, 250_000));
    assert!(matches!(session.phase, CardDisplayPhase::CardBackRotatingIn));
    let d = session.tick(TimeTick::build(21, 0));
    assert!(matches!(session.phase, CardDisplayPhase::Idle));
    assert!(session.display_card.is_none(), "the card is released at idle");
    assert!(matches!(d, RenderDirective::Placeholder));
}
