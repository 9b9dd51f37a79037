use track_rename::metadata::{decimal_text, fmt_field, same_text, Metadata};
use track_rename::track::{Track, NAME_TEMPLATE};

fn meta(track: Option<u32>, artist: Option<&str>, title: Option<&str>) -> Metadata {
    Metadata {
        track,
        artist: artist.map(String::from),
        title: title.map(String::from),
    }
}

fn expand(t: &str, m: &Metadata) -> String {
    track_rename::template::format(t, m)
}

#[test]
fn template_without_marker_is_unchanged() {
    let m = meta(Some(7), Some("Band"), Some("Song"));
    assert_eq!(expand("plain name.mp3", &m), "plain name.mp3");
    assert_eq!(expand("title", &m), "title");
    assert_eq!(expand("", &m), "");
}

#[test]
fn leading_marker_starts_with_field() {
    let m = meta(Some(7), Some("Band"), Some("Song"));
    assert_eq!(expand("%title% x", &m), "Song x");
    assert_eq!(expand("%artist%", &m), "Band");
}

#[test]
fn single_title_field() {
    let m = meta(Some(7), None, Some("Song"));
    assert_eq!(expand("%title%", &m), fmt_field("title", &m));
    assert_eq!(expand("%title%", &m), "Song");
}

#[test]
fn title_between_literals() {
    let m = meta(None, None, Some("Song"));
    let expected = format!("A{}B", fmt_field("title", &m));
    assert_eq!(expand("A%title%B", &m), expected);
    assert_eq!(expand("A%title%B", &m), "ASongB");
}

#[test]
fn unknown_field_is_empty() {
    let m = meta(Some(7), Some("Band"), Some("Song"));
    assert_eq!(fmt_field("genre", &m), "");
    assert_eq!(fmt_field("", &m), "");
    assert_eq!(fmt_field("Title", &m), "");
    assert_eq!(expand("a%genre%b", &m), "ab");
}

#[test]
fn track_and_title_end_to_end() {
    let m = meta(Some(7), None, Some("Song"));
    assert_eq!(expand("%tracknumber%. %title%.mp3", &m), "7. Song.mp3");
}

#[test]
fn missing_title_end_to_end() {
    let m = meta(Some(3), None, None);
    assert_eq!(expand("%tracknumber%. %title%.mp3", &m), "3. .mp3");
}

#[test]
fn double_marker_is_empty_field() {
    let m = meta(Some(7), Some("Band"), Some("Song"));
    assert_eq!(expand("%%", &m), "");
    assert_eq!(expand("a%%b", &m), "ab");
}

#[test]
fn unmatched_marker_makes_rest_a_field() {
    let m = meta(Some(7), Some("Band"), Some("Song"));
    assert_eq!(expand("a%title", &m), "aSong");
    assert_eq!(expand("a%genre", &m), "a");
    assert_eq!(expand("%", &m), "");
}

#[test]
fn trailing_literal_is_kept() {
    let m = meta(Some(12), Some("Band"), Some("Song"));
    assert_eq!(expand("%artist% - %title%!", &m), "Band - Song!");
    assert_eq!(expand("x%tracknumber%y%title%z", &m), "x12ySongz");
}

#[test]
fn fields_resolve_by_name() {
    let m = meta(Some(42), Some("Band"), Some("Song"));
    assert_eq!(fmt_field("tracknumber", &m), "42");
    assert_eq!(fmt_field("artist", &m), "Band");
    assert_eq!(fmt_field("title", &m), "Song");
    let empty = meta(None, None, None);
    assert_eq!(fmt_field("tracknumber", &empty), "");
    assert_eq!(fmt_field("artist", &empty), "");
    assert_eq!(fmt_field("title", &empty), "");
}

#[test]
fn non_ascii_text_is_kept() {
    let m = meta(Some(1), None, Some("Été"));
    assert_eq!(expand("é%title%ü", &m), "éÉtéü");
}

#[test]
fn decimal_text_has_no_padding() {
    assert_eq!(decimal_text(0), "0");
    assert_eq!(decimal_text(7), "7");
    assert_eq!(decimal_text(10), "10");
    assert_eq!(decimal_text(1234), "1234");
    assert_eq!(decimal_text(u32::MAX), "4294967295");
}

#[test]
fn same_text_compares_characters() {
    assert!(same_text("title", "title"));
    assert!(!same_text("title", "titles"));
    assert!(!same_text("title", "Title"));
    assert!(same_text("", ""));
}

#[test]
fn target_name_uses_the_name_template() {
    assert_eq!(NAME_TEMPLATE, "%tracknumber%. %title%.mp3");
    let t: Result<Track, String> = Track::from_path("a.mp3", Ok(meta(Some(7), None, Some("Song"))));
    let t = t.unwrap();
    assert_eq!(t.target_name(), "7. Song.mp3");
    assert_eq!(t.path(), "a.mp3");
    assert_eq!(t.tag().title.as_deref(), Some("Song"));
}

#[test]
fn from_path_passes_a_read_error_on() {
    let t: Result<Track, String> = Track::from_path("a.mp3", Err(String::from("no tag")));
    assert_eq!(t.err(), Some(String::from("no tag")));
}

#[test]
fn rename_success_records_new_path() {
    let mut t: Track = Track::from_path::<String>("a.mp3", Ok(meta(Some(3), None, None))).unwrap();
    let r: Result<(), String> = t.rename("3. .mp3", Ok(()));
    assert_eq!(r, Ok(()));
    assert_eq!(t.path(), "3. .mp3");
    assert_eq!(t.tag().track, Some(3));
}

#[test]
fn rename_failure_keeps_old_path() {
    let mut t: Track = Track::from_path::<String>("a.mp3", Ok(meta(Some(3), None, None))).unwrap();
    let r = t.rename("missing/dir/3. .mp3", Err(String::from("no such directory")));
    assert_eq!(r, Err(String::from("no such directory")));
    assert_eq!(t.path(), "a.mp3");
}
