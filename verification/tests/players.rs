use multiplayerctl::error::Error;
use multiplayerctl::players::PlayerSet;

fn parsed(listing: &str) -> Vec<String> {
    PlayerSet::parse(listing).ids().clone()
}

fn expected(listing: &str) -> Vec<String> {
    listing.lines().map(str::trim).filter(|line| !line.is_empty()).map(str::to_string).collect()
}

#[test]
fn parse_reads_one_player_per_line() {
    assert_eq!(parsed("firefox\nvlc\n"), vec!["firefox", "vlc"]);
}

#[test]
fn parse_accepts_a_last_line_without_line_feed() {
    assert_eq!(parsed("firefox\nvlc"), vec!["firefox", "vlc"]);
}

#[test]
fn parse_of_nothing_is_empty() {
    assert!(parsed("").is_empty());
    assert!(parsed("\n").is_empty());
    assert!(parsed("\n\n  \n\t\n").is_empty());
    assert!(PlayerSet::parse("").is_empty());
    assert_eq!(PlayerSet::parse("").len(), 0);
}

#[test]
fn parse_trims_each_line() {
    assert_eq!(parsed("  firefox \n\tvlc\t\n"), vec!["firefox", "vlc"]);
    assert_eq!(parsed("firefox\r\nvlc\r\n"), vec!["firefox", "vlc"]);
    assert_eq!(parsed("\u{a0}mpv\u{3000}\n"), vec!["mpv"]);
}

#[test]
fn parse_keeps_white_space_inside_a_name() {
    assert_eq!(parsed(" my player \n"), vec!["my player"]);
}

#[test]
fn parse_leaves_out_empty_lines() {
    assert_eq!(parsed("\nfirefox\n\n\nvlc\n  \nmpv"), vec!["firefox", "vlc", "mpv"]);
}

#[test]
fn parse_keeps_order_and_duplicates() {
    assert_eq!(parsed("b\na\nb\n"), vec!["b", "a", "b"]);
}

#[test]
fn parse_keeps_characters_outside_ascii() {
    assert_eq!(parsed("käse\n日本語 プレーヤー\n"), vec!["käse", "日本語 プレーヤー"]);
}

#[test]
fn parse_agrees_with_lines_and_trim_of_std() {
    let samples = [
        "",
        "a",
        "a\n",
        "\na",
        "a\n\nb",
        " a \r\n b\t\r\n",
        "\r\n\r\n",
        "chromium.instance1234\nspotify\nvlc\n",
        "x\u{2003}\ny\u{85}z\n\u{2028}w",
        "one two\n three  four \n",
        "\u{feff}bom\n",
    ];
    for sample in samples {
        assert_eq!(parsed(sample), expected(sample), "{:?}", sample);
    }
}

#[test]
fn from_backend_decodes_and_parses() {
    let players = PlayerSet::from_backend(b"firefox\nvlc\n".to_vec()).unwrap();
    assert_eq!(players.ids(), &vec!["firefox".to_string(), "vlc".to_string()]);
    assert_eq!(players.len(), 2);
    assert!(!players.is_empty());
}

#[test]
fn from_backend_decodes_utf8() {
    let players = PlayerSet::from_backend("grüße\n".as_bytes().to_vec()).unwrap();
    assert_eq!(players.ids(), &vec!["grüße".to_string()]);
}

#[test]
fn from_backend_rejects_what_is_not_utf8() {
    assert_eq!(PlayerSet::from_backend(vec![0x66, 0xff, 0x0a]), Err(Error::BackendProtocolError));
    assert_eq!(PlayerSet::from_backend(vec![0xc3]), Err(Error::BackendProtocolError));
    assert_eq!(PlayerSet::from_backend(vec![0xed, 0xa0, 0x80]), Err(Error::BackendProtocolError));
    assert_eq!(PlayerSet::from_backend(vec![0xc0, 0x80]), Err(Error::BackendProtocolError));
}

#[test]
fn from_ids_keeps_the_identifiers() {
    let ids = vec!["a".to_string(), "".to_string(), "a".to_string()];
    let players = PlayerSet::from_ids(ids.clone());
    assert_eq!(players.ids(), &ids);
    assert_eq!(players.len(), 3);
}

#[test]
fn get_gives_the_player_at_a_place() {
    let players = PlayerSet::parse("a\nb\n");
    assert_eq!(players.get(0), Some(&"a".to_string()));
    assert_eq!(players.get(1), Some(&"b".to_string()));
    assert_eq!(players.get(2), None);
    assert_eq!(players.get(usize::MAX), None);
}

#[test]
fn position_finds_the_first_place() {
    let players = PlayerSet::parse("a\nb\na\nc\n");
    assert_eq!(players.position("a"), Some(0));
    assert_eq!(players.position("b"), Some(1));
    assert_eq!(players.position("c"), Some(3));
    assert_eq!(players.position("d"), None);
    assert_eq!(players.position(""), None);
}

#[test]
fn has_tells_whether_a_player_runs() {
    let players = PlayerSet::parse("firefox\nvlc\n");
    assert!(players.has("firefox"));
    assert!(players.has("vlc"));
    assert!(!players.has("vl"));
    assert!(!players.has("vlc\n"));
    assert!(!PlayerSet::parse("").has("vlc"));
}
