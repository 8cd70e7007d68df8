use barely_game_console::config::{CardInfo, Config};
use barely_game_console::rfid_reader::{RFIDReader, KEY_0, KEY_1, KEY_ENTER, KEY_POWER};

fn card(artwork: &str) -> CardInfo {
    CardInfo {
        rom_path: Some(format!("{}.sfc", artwork)),
        emulator: Some("snes9x".to_string()),
        command: None,
        working_dir: None,
        artwork: artwork.to_string(),
    }
}

fn type_keys(reader: &mut RFIDReader, codes: &[u16]) -> Vec<String> {
    let mut out = Vec::new();
    for &code in codes {
        assert_eq!(reader.handle_key(code, 1), None);
        if let Some(id) = reader.handle_key(code, 0) {
            out.push(id);
        }
    }
    out
}

#[test]
fn reader_starts_empty() {
    let r = RFIDReader::new();
    assert_eq!(r.id, "");
}

#[test]
fn reader_collects_digits_until_enter() {
    let mut r = RFIDReader::new();
    let ids = type_keys(&mut r, &[KEY_1, KEY_1 + 1, KEY_1 + 8, KEY_0, KEY_ENTER]);
    assert_eq!(ids, vec!["1290".to_string()]);
    assert_eq!(r.id, "");
}

#[test]
fn reader_ignores_presses_and_other_keys() {
    let mut r = RFIDReader::new();
    assert_eq!(r.handle_key(KEY_1 + 4, 1), None);
    assert_eq!(r.id, "");
    assert_eq!(r.handle_key(KEY_POWER, 0), None);
    assert_eq!(r.handle_key(30, 0), None);
    assert_eq!(r.id, "");
    assert_eq!(r.handle_key(KEY_1 + 4, 0), None);
    assert_eq!(r.id, "5");
}

#[test]
fn reader_emits_each_token_separately() {
    let mut r = RFIDReader::new();
    let ids = type_keys(&mut r, &[KEY_1, KEY_ENTER, KEY_1 + 2, KEY_ENTER, KEY_ENTER]);
    assert_eq!(ids, vec!["1".to_string(), "3".to_string(), "".to_string()]);
}

#[test]
fn config_finds_known_token() {
    let config = Config {
        rfid_cards: vec![("111".to_string(), card("mario")), ("222".to_string(), card("zelda"))],
    };
    assert_eq!(config.find(&"222".to_string()), Some(1));
    assert_eq!(config.resolve(&"111".to_string()).map(|c| c.artwork.clone()), Some("mario".to_string()));
}

#[test]
fn config_rejects_unknown_token() {
    let config = Config { rfid_cards: vec![("111".to_string(), card("mario"))] };
    assert_eq!(config.find(&"11".to_string()), None);
    assert!(config.resolve(&"333".to_string()).is_none());
    let empty = Config { rfid_cards: vec![] };
    assert_eq!(empty.find(&"111".to_string()), None);
}
