use game_lobby::catalog::{Anime, MALResponse};
use game_lobby::clock::{seconds_or_epoch, timestamp};
use game_lobby::message::{message_with_ack, reply_for};
use game_lobby::signal::Signal;
use rmpv::Value;

#[test]
fn event_names() {
    assert_eq!(Signal::PlayerJoined("p2".to_string()).event(), "player joined");
    assert_eq!(Signal::StartGame(1, 2).event(), "start game");
    assert_eq!(Signal::Pass(2).event(), "pass");
    assert_eq!(Signal::Extend.event(), "extend");
    assert_eq!(Signal::NextAnime(-1, 2).event(), "next anime");
}

#[test]
fn reply_repeats_the_text() {
    assert_eq!(reply_for(Some("hello")), Some("replied: hello".to_string()));
    assert_eq!(reply_for(Some("")), Some("replied: ".to_string()));
    assert_eq!(reply_for(Some("h\u{e9}llo \u{1f600}")), Some("replied: h\u{e9}llo \u{1f600}".to_string()));
    assert_eq!(reply_for(None), None);
}

#[test]
fn message_that_is_text_is_acknowledged() {
    assert_eq!(message_with_ack(&Value::from("hello")), Some("replied: hello".to_string()));
    assert_eq!(message_with_ack(&Value::from("")), Some("replied: ".to_string()));
}

#[test]
fn message_that_is_not_text_is_not_acknowledged() {
    assert_eq!(message_with_ack(&Value::Nil), None);
    assert_eq!(message_with_ack(&Value::from(42)), None);
    assert_eq!(message_with_ack(&Value::from(true)), None);
    assert_eq!(message_with_ack(&Value::Binary(vec![104, 105])), None);
    assert_eq!(message_with_ack(&Value::Array(vec![Value::from("hello")])), None);
}

#[test]
fn clock_reads_the_present() {
    let first = timestamp();
    let by_std = std::time::SystemTime::now()
        .duration_since(std::time::UNIX_EPOCH)
        .map(|elapsed| elapsed.as_secs())
        .unwrap_or(0);
    let second = timestamp();
    assert!(first <= by_std && by_std <= second);
    assert!(first > 1_600_000_000);
}

#[test]
fn nothing_to_pick_from_an_empty_catalogue() {
    assert_eq!(MALResponse { data: vec![] }.pick(), None);
}

#[test]
fn pick_of_one_candidate() {
    let response = MALResponse { data: vec![Anime { mal_id: 9253 }] };
    assert_eq!(response.pick(), Some(Anime { mal_id: 9253 }));
}

#[test]
fn pick_is_one_of_the_candidates() {
    let response = MALResponse {
        data: vec![Anime { mal_id: 1 }, Anime { mal_id: 20 }, Anime { mal_id: 21 }],
    };
    let mut seen = [false; 3];
    for _ in 0..400 {
        match response.pick() {
            Some(Anime { mal_id: 1 }) => seen[0] = true,
            Some(Anime { mal_id: 20 }) => seen[1] = true,
            Some(Anime { mal_id: 21 }) => seen[2] = true,
            other => panic!("unexpected {:?}", other),
        }
    }
    assert_eq!(seen, [true, true, true]);
    assert_eq!(response.data.len(), 3);
}

#[test]
fn clock_before_the_epoch_counts_as_the_epoch() {
    assert_eq!(seconds_or_epoch(None), 0);
    assert_eq!(seconds_or_epoch(Some(0)), 0);
    assert_eq!(seconds_or_epoch(Some(1_700_000_000)), 1_700_000_000);
    assert_eq!(seconds_or_epoch(Some(u64::MAX)), u64::MAX);
}
