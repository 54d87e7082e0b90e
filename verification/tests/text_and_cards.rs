use overlay::autocomplete::{
    autocomplete, autocomplete_index, get_user_input_for_autocomplete, AutocompleteOption,
    AutocompleteResult, AutocompleteSuggestionManager, KeyInput,
};
use overlay::card::{CardDB, CardData};
use overlay::gamestate::{buffer, merge_displays, GameState, Player, PlayerAnalytics};
use overlay::tracker;

fn option_values() -> Vec<AutocompleteOption> {
    vec![
        AutocompleteOption::new("Abc".to_string()),
        AutocompleteOption::new("abd".to_string()),
        AutocompleteOption::new("Zed".to_string()),
    ]
}

#[test]
fn autocomplete_is_case_insensitive() {
    // "Abc" completes "aBc" only because the comparison lowercases both
    // sides; an identity lowercasing would match nothing here
    let values = option_values();
    let found = autocomplete(&values, "aBc");
    assert_eq!(found.len(), 1);
    assert_eq!(found[0].text(), "Abc");
    let found = autocomplete(&values, "ab");
    assert_eq!(found.len(), 2);
    let found = autocomplete(&values, "q");
    assert_eq!(found.len(), 0);
}

#[test]
fn empty_text_offers_every_item() {
    let values = option_values();
    assert_eq!(autocomplete(&values, "").len(), 3);
    assert_eq!(autocomplete_index(&values, "").len(), 3);
}

#[test]
fn autocomplete_index_returns_positions() {
    let values = option_values();
    let found = autocomplete_index(&values, "AB");
    assert_eq!(found, vec![0, 1].into_iter().collect::<std::collections::VecDeque<usize>>());
}

#[test]
fn suggestion_manager_types_and_cycles() {
    let mut manager = AutocompleteSuggestionManager::build(option_values());
    let text = manager.get_user_input_for_autocomplete("", KeyInput::Char('a'));
    assert_eq!(text, "a");
    assert!(manager.has_suggestions());
    assert_eq!(manager.current_suggestion().unwrap().text(), "Abc");
    let cycled = manager.get_user_input_for_autocomplete(&text, KeyInput::Tab);
    assert_eq!(cycled, "a");
    assert_eq!(manager.current_suggestion().unwrap().text(), "abd");
    let back = manager.get_user_input_for_autocomplete(&cycled, KeyInput::BackTab);
    assert_eq!(back, "a");
    assert_eq!(manager.current_suggestion().unwrap().text(), "Abc");
    // a character nothing completes is swallowed
    let text = manager.get_user_input_for_autocomplete("a", KeyInput::Char('q'));
    assert_eq!(text, "a");
    // backspace shortens, escape clears
    let text = manager.get_user_input_for_autocomplete("ab", KeyInput::Backspace);
    assert_eq!(text, "a");
    let text = manager.get_user_input_for_autocomplete("ab", KeyInput::Esc);
    assert_eq!(text, "");
    assert!(!manager.has_suggestions());
}

#[test]
fn free_autocomplete_finishes_on_enter() {
    let values = option_values();
    let empty = std::collections::VecDeque::new();
    let r = get_user_input_for_autocomplete(&values, "", &empty, KeyInput::Char('z'));
    let (text, suggestions) = match r {
        AutocompleteResult::Continue { text, suggestions } => (text, suggestions),
        AutocompleteResult::Finished(_) => panic!("nothing was accepted yet"),
    };
    assert_eq!(text, "z");
    assert_eq!(suggestions.len(), 1);
    let r = get_user_input_for_autocomplete(&values, &text, &suggestions, KeyInput::Enter);
    match r {
        AutocompleteResult::Finished(s) => assert_eq!(s.text(), "Zed"),
        AutocompleteResult::Continue { .. } => panic!("enter accepts the front suggestion"),
    }
}

fn sample_cards() -> Vec<CardData> {
    vec![
        CardData {
            name: "Bravo".to_string(),
            pitch: None,
            life: Some(40),
            display: "Bravo".to_string(),
            uuid: "b-1".to_string(),
            types: vec!["hero".to_string(), "guardian".to_string()],
        },
        CardData {
            name: "Sink Below".to_string(),
            pitch: Some(1),
            life: None,
            display: "Sink Below (R)".to_string(),
            uuid: "s-1".to_string(),
            types: vec!["action".to_string()],
        },
        CardData {
            name: "Sink Below".to_string(),
            pitch: Some(2),
            life: None,
            display: "Sink Below (Y)".to_string(),
            uuid: "s-2".to_string(),
            types: vec!["action".to_string()],
        },
    ]
}

#[test]
fn card_db_finds_first_match_by_name_and_pitch() {
    let db = CardDB { cards: sample_cards() };
    let found = db.find("Sink Below", Some(2)).unwrap();
    assert_eq!(found.uuid, "s-2");
    assert!(db.find("Sink Below", Some(3)).is_none());
    assert!(db.find("Bravo", None).is_some());
}

#[test]
fn card_db_lists_heroes() {
    let db = CardDB { cards: sample_cards() };
    let heroes = db.heroes();
    assert_eq!(heroes.len(), 1);
    assert_eq!(heroes[0].name, "Bravo");
}

#[test]
fn pitch_str_renders_or_stays_empty() {
    let db = CardDB { cards: sample_cards() };
    assert_eq!(db.cards[0].pitch_str(), "");
    assert_eq!(db.cards[1].pitch_str(), "1");
}

#[test]
fn tracker_autocompletes_display_names() {
    let db = tracker::CardDB {
        cards: vec![
            tracker::CardData {
                name: "Sink Below".to_string(),
                pitch: Some(1),
                display: "Sink Below (R)".to_string(),
                uuid: "s-1".to_string(),
            },
            tracker::CardData {
                name: "Snatch".to_string(),
                pitch: Some(1),
                display: "Snatch (R)".to_string(),
                uuid: "n-1".to_string(),
            },
        ],
    };
    let found = tracker::autocomplete_card_name(&db, "sink");
    assert_eq!(found.len(), 1);
    assert_eq!(found[0].uuid, "s-1");
    assert_eq!(found[0].pitch_str(), "1");
}

#[test]
fn buffer_pads_to_width() {
    assert_eq!(buffer("ab", 5), "ab   ");
    assert_eq!(buffer("ab", 2), "ab");
}

#[test]
fn merge_displays_aligns_columns() {
    let left = vec!["ab".to_string(), "c".to_string()];
    let right = vec!["x".to_string(), "y".to_string()];
    assert_eq!(merge_displays(left, right), "ab | x\nc  | y\n");
}

#[test]
fn player_analytics_seed_from_hero() {
    assert_eq!(PlayerAnalytics::get_health("riptide"), 19);
    assert_eq!(PlayerAnalytics::get_health("unknown hero"), 40);
    assert_eq!(PlayerAnalytics::get_intellect(" DataDoll "), 3);
    assert_eq!(PlayerAnalytics::get_intellect("bravo"), 4);
}

#[test]
fn game_state_tracks_hand_pitch_and_turn_end() {
    let p1 = Player { name: "Ada".to_string(), hero: "bravo".to_string(), deck_size: 60 };
    let p2 = Player { name: "Ben".to_string(), hero: "datadoll".to_string(), deck_size: 52 };
    let mut game = GameState::build_cc(p1, p2, true);
    assert_eq!(game.player_1.cards_in_hand, 4);
    assert_eq!(game.player_2.cards_in_hand, 3);
    assert_eq!(game.player_1.cards_in_deck, 56);
    game.play_from_hand("Sink Below".to_string(), overlay::gamestate::Color::Red);
    assert_eq!(game.player_1.cards_in_hand, 3);
    game.pitch(vec![
        overlay::gamestate::Card { name: "Seeds".to_string(), color: overlay::gamestate::Color::Yellow },
    ]);
    assert_eq!(game.player_1.cards_in_hand, 2);
    assert_eq!(game.player_1.pitch.len(), 1);
    game.end_turn();
    assert_eq!(game.player_1.pitch.len(), 0);
    assert_eq!(game.player_1.pitch_stack.len(), 2);
}

#[test]
fn player_display_lines_are_exact() {
    let p = Player { name: "Ada".to_string(), hero: "bravo".to_string(), deck_size: 60 };
    let analytics = PlayerAnalytics::build(&p);
    let lines = analytics.to_display();
    assert_eq!(
        lines,
        vec![
            "Player: Ada".to_string(),
            "Hero: bravo".to_string(),
            "Health: 40".to_string(),
            "Cards in Hand: 4".to_string(),
            "Cards in Deck: 56".to_string(),
        ]
    );
}

#[test]
fn trim_and_compare_helpers() {
    assert_eq!(overlay::textops::trim_spaces("  card \n"), "card");
    assert_eq!(overlay::textops::trim_spaces(""), "");
    assert_eq!(overlay::textops::trim_spaces("   "), "");
    assert!(overlay::textops::str_eq("abc", "abc"));
    assert!(!overlay::textops::str_eq("abc", "abd"));
    assert!(overlay::textops::starts_with_str("card ", "card"));
    assert!(!overlay::textops::starts_with_str("car", "card"));
}
