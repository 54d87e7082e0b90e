use overlay::annotate::{
    extract_life_update, is_command, is_life_update, split_words, Command, Record, RecordKeeper,
    UpdateType,
};
use overlay::autocomplete::Named;
use overlay::card::CardData;
use overlay::events::{parse_line, EventKind, PlayerId};

fn hero(name: &str, life: u32) -> CardData {
    CardData {
        name: name.to_string(),
        pitch: None,
        life: Some(life),
        display: name.to_string(),
        uuid: "h".to_string(),
        types: vec!["hero".to_string()],
    }
}

#[test]
fn command_names_are_prompt_tokens() {
    let all = Command::get_all();
    assert_eq!(all.len(), 6);
    assert_eq!(all[0].get_name(), ":h");
    assert_eq!(all[1].get_name(), ":t");
    assert_eq!(all[5].get_name(), ":w2");
}

#[test]
fn command_prefixes_are_recognized() {
    assert!(is_command(":q"));
    assert!(!is_command("q"));
    assert!(is_life_update(":h 1 -5"));
    assert!(!is_life_update(":t"));
}

#[test]
fn words_split_and_drop_empties() {
    assert_eq!(split_words("  :h  1   -5 "), vec![":h", "1", "-5"]);
    assert_eq!(split_words(""), Vec::<String>::new());
    assert_eq!(split_words("   "), Vec::<String>::new());
}

#[test]
fn life_command_extraction() {
    assert_eq!(extract_life_update(":h 2 -5"), Some((2, "-5".to_string())));
    assert_eq!(extract_life_update(":h  1  =30"), Some((1, "=30".to_string())));
    assert_eq!(extract_life_update(":h 3 -5"), None);
    assert_eq!(extract_life_update(":h 1 five"), None);
    assert_eq!(extract_life_update(":h 1"), None);
    assert_eq!(extract_life_update("hello"), None);
}

#[test]
fn record_keeper_seeds_hero_rows() {
    let keeper = RecordKeeper::build(&hero("Bravo", 40), &hero("Kano", 38), "1");
    assert_eq!(keeper.records.len(), 2);
    assert_eq!(keeper.records[0].update_type, UpdateType::Hero1);
    assert_eq!(keeper.records[0].player1_life.as_deref(), Some("40"));
    assert_eq!(keeper.records[1].update_type, UpdateType::Hero2);
    assert_eq!(keeper.records[1].player2_life.as_deref(), Some("38"));
}

#[test]
fn record_rows_match_the_header_grammar() {
    assert_eq!(
        Record::headers(),
        "sec\tmilli\tname\tpitch\tplayer1_life\tplayer2_life\tupdate_type\n"
    );
    let mut keeper = RecordKeeper::build(&hero("Bravo", 40), &hero("Kano", 38), "1");
    keeper.add_card_update(12, 250, "Sink Below", Some(1));
    keeper.add_player_life_update(13, 0, 2, "-4");
    keeper.add_turn_update(14, 0);
    keeper.add_winner_update(15, 500, 1);
    let texts: Vec<String> = keeper.records.into_iter().map(|r| r.text()).collect();
    assert_eq!(texts[0], "0\t0\tBravo\t\t40\t\thero1\n");
    assert_eq!(texts[2], "12\t250\tSink Below\t1\t\t\tcard\n");
    assert_eq!(texts[3], "13\t0\t\t\t\t-4\tlife\n");
    assert_eq!(texts[4], "14\t0\t\t\t\t\tturn\n");
    assert_eq!(texts[5], "15\t500\t\t\t\t\twin1\n");
}

#[test]
fn written_rows_parse_back_as_the_same_events() {
    let mut keeper = RecordKeeper::build(&hero("Bravo", 40), &hero("Kano", 38), "1");
    keeper.add_card_update(12, 250, "Sink Below", Some(1));
    keeper.add_player_life_update(13, 0, 2, "-4");
    let texts: Vec<String> = keeper.records.into_iter().map(|r| r.text()).collect();
    let event = parse_line(texts[2].trim_end()).unwrap();
    assert_eq!(event.timestamp.sec, 12);
    assert_eq!(event.timestamp.micro, 250_000);
    match event.kind {
        EventKind::CardPlayed { name, pitch } => {
            assert_eq!(name, "Sink Below");
            assert_eq!(pitch, Some(1));
        }
        other => panic!("round trip changed the kind: {:?}", other),
    }
    let event = parse_line(texts[3].trim_end()).unwrap();
    match event.kind {
        EventKind::LifeChanged { player, update } => {
            assert_eq!(player, PlayerId::Two);
            assert_eq!(update, "-4");
        }
        other => panic!("round trip changed the kind: {:?}", other),
    }
}

#[test]
fn sorting_orders_rows_and_keeps_ties_stable() {
    let mut keeper = RecordKeeper::build(&hero("Bravo", 40), &hero("Kano", 38), "1");
    keeper.add_turn_update(9, 0);
    keeper.add_card_update(4, 500, "Early", None);
    keeper.add_card_update(4, 500, "Tied", None);
    keeper.add_winner_update(2, 0, 2);
    keeper.sort_records();
    let times: Vec<(u64, u64)> = keeper.records.iter().map(|r| (r.sec, r.milli)).collect();
    assert_eq!(times, vec![(0, 0), (0, 0), (2, 0), (4, 500), (4, 500), (9, 0)]);
    // the hero rows keep their arrival order, and so do the tied cards
    assert_eq!(keeper.records[0].update_type, UpdateType::Hero1);
    assert_eq!(keeper.records[1].update_type, UpdateType::Hero2);
    assert_eq!(keeper.records[3].name.as_deref(), Some("Early"));
    assert_eq!(keeper.records[4].name.as_deref(), Some("Tied"));
    assert_eq!(keeper.records[5].update_type, UpdateType::Turn);
}
