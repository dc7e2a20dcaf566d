use osu_beatmap::Beatmap;
use osu_beatmap::BeatmapError;

const SCENARIO: &str =
    "osu file format v14\n[General]\nAudioFilename: song.mp3\nAudioLeadIn: 500\n";

const MALFORMED: &str = "osu file format v14\n[General]\nAudioLeadIn: abc\n";

#[test]
fn parse_surfaces_decoded_fields() {
    let b = Beatmap::parse(SCENARIO).unwrap();
    assert_eq!(b.version(), 14);
    assert_eq!(b.audioFilename(), "song.mp3");
    assert_eq!(b.audioLeadIn(), 500);
}

#[test]
fn parse_scenario_json_holds_fields() {
    let b = Beatmap::parse(SCENARIO).unwrap();
    let v = b.asJson();
    assert_eq!(v.get("version").and_then(|x| x.as_u64()), Some(14));
    assert_eq!(v.get("audio_filename").and_then(|x| x.as_str()), Some("song.mp3"));
    assert_eq!(v.get("audio_leadin").and_then(|x| x.as_i64()), Some(500));
}

#[test]
fn default_construction_holds_documented_defaults() {
    let b = Beatmap::construct();
    assert_eq!(b.version(), 0);
    assert_eq!(b.audioFilename(), "");
    assert_eq!(b.audioLeadIn(), 0);
}

#[test]
fn set_then_get_on_default_handle() {
    let mut b = Beatmap::construct();
    b.set_version(7);
    assert_eq!(b.version(), 7);
    b.set_audioFilename("other.ogg");
    assert_eq!(b.audioFilename(), "other.ogg");
    b.set_audioLeadIn(123);
    assert_eq!(b.audioLeadIn(), 123);
    assert_eq!(b.version(), 7);
    assert_eq!(b.audioFilename(), "other.ogg");
}

#[test]
fn set_then_get_on_parsed_handle() {
    let mut b = Beatmap::parse(SCENARIO).unwrap();
    b.set_version(9);
    assert_eq!(b.version(), 9);
    b.set_audioFilename("");
    assert_eq!(b.audioFilename(), "");
    b.set_audioLeadIn(0);
    assert_eq!(b.audioLeadIn(), 0);
}

#[test]
fn setters_reach_the_json_projection() {
    let mut b = Beatmap::parse(SCENARIO).unwrap();
    b.set_version(7);
    b.set_audioFilename("other.ogg");
    b.set_audioLeadIn(123);
    let v = b.asJson();
    assert_eq!(v.get("version").and_then(|x| x.as_u64()), Some(7));
    assert_eq!(v.get("audio_filename").and_then(|x| x.as_str()), Some("other.ogg"));
    assert_eq!(v.get("audio_leadin").and_then(|x| x.as_i64()), Some(123));
}

#[test]
fn json_projection_is_idempotent() {
    let b = Beatmap::parse(SCENARIO).unwrap();
    let first = b.asJson();
    let second = b.asJson();
    assert_eq!(first, second);
}

#[test]
fn json_projection_of_default_is_idempotent() {
    let b = Beatmap::construct();
    let first = b.asJson();
    let second = b.asJson();
    assert_eq!(first, second);
}

#[test]
fn malformed_input_fails_with_sad_prefix() {
    let r = Beatmap::parse(MALFORMED);
    match r {
        Ok(_) => panic!("a malformed text must not yield a handle"),
        Err(e) => {
            assert!(matches!(e, BeatmapError::Parse(_)));
            assert!(e.message().starts_with("sad: "));
        }
    }
}

#[test]
fn parse_error_message_carries_the_detail() {
    let e = BeatmapError::Parse(String::from("x"));
    assert_eq!(e.message(), "sad: x");
}

#[test]
fn io_error_message_is_passed_through_bare() {
    let e = BeatmapError::Io(String::from("no such file"));
    assert_eq!(e.message(), "no such file");
}

#[test]
fn empty_text_parses_to_the_default_model() {
    let b = Beatmap::parse("").unwrap();
    assert_eq!(b.version(), 0);
    assert_eq!(b.audioFilename(), "");
    assert_eq!(b.audioLeadIn(), 0);
}
