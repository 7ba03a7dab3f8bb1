use spotifyd_bar::fetch::extract_track;
use spotifyd_bar::fetch::metadata_step;
use spotifyd_bar::fetch::status_step;
use spotifyd_bar::fetch::str_contains;
use spotifyd_bar::fetch::FetchError;
use spotifyd_bar::fetch::FetchStep;
use spotifyd_bar::fetch::MetaValue;

fn artist_list(names: &[&str]) -> Option<MetaValue> {
    Some(MetaValue::StrList(names.iter().map(|n| n.to_string()).collect()))
}

fn single_string(s: &str) -> Option<MetaValue> {
    Some(MetaValue::Str(s.to_string()))
}

#[test]
fn str_contains_finds_substring() {
    assert!(str_contains("Stopped", "Stopped"));
    assert!(str_contains("xxStoppedyy", "Stopped"));
    assert!(str_contains("Stoppedyy", "Stopped"));
    assert!(str_contains("xxStopped", "Stopped"));
}

#[test]
fn str_contains_rejects_absent_substring() {
    assert!(!str_contains("Playing", "Stopped"));
    assert!(!str_contains("Stoppe", "Stopped"));
    assert!(!str_contains("", "Stopped"));
    assert!(!str_contains("StoPped", "Stopped"));
}

#[test]
fn str_contains_empty_pattern() {
    assert!(str_contains("", ""));
    assert!(str_contains("anything", ""));
}

#[test]
fn stopped_status_settles_without_metadata() {
    assert_eq!(status_step("Stopped"), FetchStep::Done(String::new()));
    assert_eq!(status_step("xStoppedx"), FetchStep::Done(String::new()));
}

#[test]
fn other_statuses_need_metadata() {
    assert_eq!(status_step("Playing"), FetchStep::NeedMetadata);
    assert_eq!(status_step("Paused"), FetchStep::NeedMetadata);
    assert_eq!(status_step("Buffering"), FetchStep::NeedMetadata);
    assert_eq!(status_step(""), FetchStep::NeedMetadata);
}

#[test]
fn playing_track_renders_from_metadata() {
    let line = metadata_step(
        "Playing",
        &artist_list(&["Radiohead"]),
        &single_string("Paranoid Android"),
    );
    assert_eq!(line, Ok("\u{f001} Radiohead - Paranoid Android".to_string()));
}

#[test]
fn paused_track_renders_from_metadata() {
    let line = metadata_step(
        "Paused",
        &artist_list(&["Bj\u{f6}rk"]),
        &single_string("J\u{f3}ga"),
    );
    assert_eq!(line, Ok("%{F#8A8B9B}\u{f001} Bj\u{f6}rk - J\u{f3}ga%{F-}".to_string()));
}

#[test]
fn unrecognized_status_renders_empty_from_metadata() {
    let line = metadata_step(
        "Buffering",
        &artist_list(&["Radiohead"]),
        &single_string("Paranoid Android"),
    );
    assert_eq!(line, Ok(String::new()));
}

#[test]
fn only_first_artist_is_used() {
    let line = metadata_step(
        "Playing",
        &artist_list(&["Simon", "Garfunkel"]),
        &single_string("America"),
    );
    assert_eq!(line, Ok("\u{f001} Simon - America".to_string()));
}

#[test]
fn missing_title_aborts_the_poll() {
    let line = metadata_step("Playing", &artist_list(&["Radiohead"]), &None);
    assert_eq!(line, Err(FetchError::MissingTitle));
}

#[test]
fn missing_artist_aborts_the_poll() {
    let line = metadata_step("Playing", &None, &single_string("Paranoid Android"));
    assert_eq!(line, Err(FetchError::MissingArtist));
}

#[test]
fn wrongly_typed_artist_aborts_the_poll() {
    let line = metadata_step(
        "Playing",
        &single_string("Radiohead"),
        &single_string("Paranoid Android"),
    );
    assert_eq!(line, Err(FetchError::ArtistNotStringList));
}

#[test]
fn wrongly_typed_title_aborts_the_poll() {
    let line = metadata_step(
        "Playing",
        &artist_list(&["Radiohead"]),
        &artist_list(&["Paranoid Android"]),
    );
    assert_eq!(line, Err(FetchError::TitleNotString));
}

#[test]
fn empty_artist_list_aborts_the_poll() {
    let line = metadata_step("Playing", &artist_list(&[]), &single_string("Paranoid Android"));
    assert_eq!(line, Err(FetchError::EmptyArtistList));
}

#[test]
fn artist_errors_take_precedence_over_title_errors() {
    assert_eq!(metadata_step("Playing", &None, &None), Err(FetchError::MissingArtist));
    assert_eq!(
        metadata_step("Playing", &single_string("Radiohead"), &None),
        Err(FetchError::ArtistNotStringList)
    );
    assert_eq!(metadata_step("Playing", &artist_list(&[]), &None), Err(FetchError::MissingTitle));
}

#[test]
fn extract_track_returns_first_artist_and_title() {
    let extracted = extract_track(
        &artist_list(&["Radiohead", "Thom Yorke"]),
        &single_string("Paranoid Android"),
    );
    assert_eq!(extracted, Ok(("Radiohead".to_string(), "Paranoid Android".to_string())));
}
