use overlay::card_display::{PhaseDurations, RenderDirective};
use overlay::clock::TimeTick;
use overlay::events::{
    parse_line, split_tabs, EventKind, EventTimeline, GameEvent, ParseError, PlayerId,
};
use overlay::overlay::{OverlayState, TurnPlayer};

fn tick(sec: u64, milli: u64) -> TimeTick {
    TimeTick::build(sec, milli * 1000)
}

fn event(sec: u64, milli: u64, kind: EventKind) -> GameEvent {
    GameEvent { timestamp: tick(sec, milli), kind }
}

fn header_events() -> Vec<GameEvent> {
    vec![
        event(0, 0, EventKind::Hero1Init { name: "Bravo".to_string(), life: "40".to_string() }),
        event(0, 0, EventKind::Hero2Init { name: "Kano".to_string(), life: "38".to_string() }),
        event(0, 0, EventKind::LifeChanged { player: PlayerId::One, update: "=40".to_string() }),
        event(0, 0, EventKind::LifeChanged { player: PlayerId::Two, update: "=38".to_string() }),
    ]
}

#[test]
fn split_tabs_keeps_empty_fields() {
    let fields = split_tabs("a\tb\t");
    assert_eq!(fields, vec!["a".to_string(), "b".to_string(), "".to_string()]);
    assert_eq!(split_tabs(""), vec!["".to_string()]);
    assert_eq!(split_tabs("plain"), vec!["plain".to_string()]);
}

#[test]
fn parse_line_reads_a_card_row() {
    let e = parse_line("2\t0\tSink Below\t1\t\t\tcard").unwrap();
    assert_eq!(e.timestamp, tick(2, 0));
    match e.kind {
        EventKind::CardPlayed { name, pitch } => {
            assert_eq!(name, "Sink Below");
            assert_eq!(pitch, Some(1));
        }
        other => panic!("wrong kind: {:?}", other),
    }
}

#[test]
fn parse_line_reads_life_turn_zoom_win_rows() {
    let e = parse_line("3\t250\t\t\t-5\t\tlife").unwrap();
    assert_eq!(e.timestamp, tick(3, 250));
    assert!(matches!(
        e.kind,
        EventKind::LifeChanged { player: PlayerId::One, .. }
    ));
    let e = parse_line("4\t0\t\t\t\t\tturn").unwrap();
    assert!(matches!(e.kind, EventKind::TurnChanged));
    let e = parse_line("5\t0\t\t\t\t\tzoom").unwrap();
    assert!(matches!(e.kind, EventKind::Zoom));
    let e = parse_line("6\t0\t\t\t\t\twin2").unwrap();
    assert!(matches!(e.kind, EventKind::Won { player: PlayerId::Two }));
    // the update type may carry stray spacing
    let e = parse_line("7\t0\tRattle\t\t\t\tcard ").unwrap();
    assert!(matches!(e.kind, EventKind::CardPlayed { .. }));
}

#[test]
fn parse_line_names_the_violated_constraint() {
    assert_eq!(parse_line("1\t0\tname\tcard").unwrap_err(), ParseError::FieldCount);
    assert_eq!(parse_line("x\t0\t\t\t\t\tturn").unwrap_err(), ParseError::BadTimestamp);
    assert_eq!(parse_line("1\t0\tSink\tred\t\t\tcard").unwrap_err(), ParseError::BadPitch);
    assert_eq!(parse_line("1\t0\t\t\t\t\tdance").unwrap_err(), ParseError::BadUpdateType);
    assert_eq!(parse_line("1\t0\t\t\t\t\tcard").unwrap_err(), ParseError::MissingName);
    assert_eq!(parse_line("1\t0\t\t\t\t\tlife").unwrap_err(), ParseError::MissingLife);
    assert_eq!(parse_line("1\t0\t\t\t-5\t-5\tlife").unwrap_err(), ParseError::MissingLife);
    assert_eq!(parse_line("1\t0\tBravo\t\t\t\thero1").unwrap_err(), ParseError::MissingLife);
}

#[test]
fn timeline_rejects_unsorted_events() {
    let events = vec![
        event(3, 0, EventKind::TurnChanged),
        event(2, 0, EventKind::TurnChanged),
    ];
    assert!(matches!(EventTimeline::build(events), Err(ParseError::OutOfOrder)));
}

#[test]
fn timeline_pops_only_due_events() {
    let events = vec![
        event(1, 0, EventKind::TurnChanged),
        event(2, 500, EventKind::Zoom),
    ];
    let mut timeline = EventTimeline::build(events).unwrap();
    assert!(timeline.pop_due(&tick(0, 999)).is_none());
    let first = timeline.pop_due(&tick(1, 0)).unwrap();
    assert!(matches!(first.kind, EventKind::TurnChanged));
    assert!(timeline.pop_due(&tick(2, 499)).is_none());
    assert!(timeline.pop_due(&tick(2, 500)).is_some());
    assert_eq!(timeline.remaining(), 0);
}

#[test]
fn engine_setup_reads_header() {
    let state = OverlayState::build(header_events(), 500_000, PhaseDurations::standard()).unwrap();
    assert_eq!(state.player1_name, "Bravo");
    assert_eq!(state.player2_name, "Kano");
    assert_eq!(state.player1_life.target(), 40);
    assert_eq!(state.player2_life.target(), 38);
    assert!(matches!(state.first_turn_player, TurnPlayer::One));
    assert!(matches!(state.turn_player, TurnPlayer::Nobody));
}

#[test]
fn engine_setup_rejects_short_or_shuffled_headers() {
    assert!(matches!(
        OverlayState::build(Vec::new(), 500_000, PhaseDurations::standard()),
        Err(ParseError::BadHeader)
    ));
    let mut events = header_events();
    events[2] = event(0, 0, EventKind::TurnChanged);
    assert!(matches!(
        OverlayState::build(events, 500_000, PhaseDurations::standard()),
        Err(ParseError::BadHeader)
    ));
    let mut events = header_events();
    events[0] =
        event(0, 0, EventKind::Hero1Init { name: "Bravo".to_string(), life: "lots".to_string() });
    assert!(matches!(
        OverlayState::build(events, 500_000, PhaseDurations::standard()),
        Err(ParseError::BadLife)
    ));
}

#[test]
fn engine_replays_a_match() {
    let mut events = header_events();
    events.push(event(
        2,
        0,
        EventKind::CardPlayed { name: "Sink Below".to_string(), pitch: Some(1) },
    ));
    events.push(event(2, 500, EventKind::TurnChanged));
    events.push(event(
        3,
        0,
        EventKind::LifeChanged { player: PlayerId::One, update: "-5".to_string() },
    ));
    events.push(event(4, 0, EventKind::Zoom));
    events.push(event(5, 0, EventKind::Won { player: PlayerId::One }));
    let mut state = OverlayState::build(events, 500_000, PhaseDurations::standard()).unwrap();

    // half-second frames: t = 0.5, 1.0, 1.5 pass quietly
    let out = state.step_frame(500_000).unwrap();
    assert!(matches!(out.directive, RenderDirective::Placeholder));
    assert_eq!(out.life1, "40");
    assert_eq!(out.turn_counter, 0);
    state.step_frame(500_000).unwrap();
    let out = state.step_frame(500_000).unwrap();
    assert!(matches!(out.directive, RenderDirective::Placeholder));

    // t = 2.0: the card event lands and the back starts rotating out
    let out = state.step_frame(500_000).unwrap();
    assert!(matches!(out.directive, RenderDirective::BackRotatingOut { .. }));

    // t = 2.5: the turn passes to the first player
    let out = state.step_frame(500_000).unwrap();
    assert_eq!(out.turn_counter, 1);
    assert!(matches!(out.turn_player, TurnPlayer::One));

    // t = 3.0: the life update lands; the displayed total eases down
    let out = state.step_frame(500_000).unwrap();
    assert_eq!(state.player1_life.target(), 35);
    assert_eq!(out.life1, "39");
    assert_eq!(out.life2, "38");

    // t = 3.5
    let out = state.step_frame(500_000).unwrap();
    assert_eq!(out.life1, "38");

    // t = 4.0: the zoom request lands while the card is showing
    let out = state.step_frame(500_000).unwrap();
    assert!(matches!(out.directive, RenderDirective::Zooming { .. }));
    assert_eq!(out.life1, "37");

    // t = 4.5
    let out = state.step_frame(500_000).unwrap();
    assert_eq!(out.life1, "36");
    assert!(out.winner.is_none());

    // t = 5.0: the winner is recorded and the countdown bottoms out
    let out = state.step_frame(500_000).unwrap();
    assert_eq!(out.life1, "35");
    assert!(matches!(out.winner, Some(PlayerId::One)));

    // t = 5.5: nothing further changes the totals
    let out = state.step_frame(500_000).unwrap();
    assert_eq!(out.life1, "35");
    assert!(matches!(out.winner, Some(PlayerId::One)));
    assert_eq!(state.timeline.remaining(), 0);
}

#[test]
fn engine_aborts_on_malformed_life_token() {
    let mut events = header_events();
    events.push(event(
        1,
        0,
        EventKind::LifeChanged { player: PlayerId::Two, update: "five".to_string() },
    ));
    let mut state = OverlayState::build(events, 500_000, PhaseDurations::standard()).unwrap();
    assert!(state.step_frame(500_000).is_ok());
    let out = state.step_frame(500_000);
    assert!(matches!(out, Err(ParseError::BadLife)));
}

#[test]
fn engine_turns_alternate_from_the_first_player() {
    let mut events = header_events();
    events.push(event(1, 0, EventKind::TurnChanged));
    events.push(event(2, 0, EventKind::TurnChanged));
    events.push(event(3, 0, EventKind::TurnChanged));
    let mut state = OverlayState::build(events, 500_000, PhaseDurations::standard()).unwrap();
    let mut last = TurnPlayer::Nobody;
    for _ in 0..8 {
        last = state.step_frame(500_000).unwrap().turn_player;
    }
    // three changes: One, Two, One
    assert!(matches!(last, TurnPlayer::One));
}

#[test]
fn engine_past_limit_watches_the_clock() {
    let mut state =
        OverlayState::build(header_events(), 500_000, PhaseDurations::standard()).unwrap();
    assert!(!state.past_limit(1));
    for _ in 0..4 {
        state.step_frame(500_000).unwrap();
    }
    assert!(!state.past_limit(2));
    state.step_frame(500_000).unwrap();
    assert!(state.past_limit(2));
}
