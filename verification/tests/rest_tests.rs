use spotifm::config::{SpotifmBumperConfig, SpotifmEspeakCfg, SpotifmSongConfig};
use spotifm::rest::{
    announce_section, edit_announce_bumper, edit_announce_song, queue_target, same_text,
    search_url, track_fields, AnnounceBumper, AnnounceSection, AnnounceSong, QueueTarget,
    TrackDocument,
};

fn espeak() -> SpotifmEspeakCfg {
    SpotifmEspeakCfg { speed: 180, amplitude: 100, pitch: 50, gap: 10, voice: "en-us".to_string() }
}

fn empty_song_form() -> AnnounceSong {
    AnnounceSong { enable: None, speed: None, amplitude: None, voice: None, pitch: None, gap: None }
}

fn empty_bumper_form() -> AnnounceBumper {
    AnnounceBumper {
        enable: None,
        tag: None,
        freq: None,
        speed: None,
        amplitude: None,
        voice: None,
        pitch: None,
        gap: None,
    }
}

fn bumper() -> SpotifmBumperConfig {
    SpotifmBumperConfig {
        idx: Some(1),
        enable: false,
        tags: vec!["a".to_string(), "b".to_string()],
        freq: 5,
        espeak: espeak(),
    }
}

#[test]
fn song_form_replaces_only_given_fields() {
    let mut song = SpotifmSongConfig { enable: false, espeak: espeak() };
    let form = AnnounceSong {
        enable: Some(true),
        speed: Some(150),
        voice: Some("en-gb".to_string()),
        ..empty_song_form()
    };
    edit_announce_song(&mut song, &form);
    assert!(song.enable);
    assert_eq!(song.espeak.speed, 150);
    assert_eq!(song.espeak.voice, "en-gb");
    assert_eq!(song.espeak.amplitude, 100);
    assert_eq!(song.espeak.pitch, 50);
    assert_eq!(song.espeak.gap, 10);
}

#[test]
fn song_form_applied_twice_equals_once() {
    let form = AnnounceSong { pitch: Some(3), gap: Some(7), ..empty_song_form() };
    let mut once = SpotifmSongConfig { enable: true, espeak: espeak() };
    edit_announce_song(&mut once, &form);
    let mut twice = once.clone();
    edit_announce_song(&mut twice, &form);
    assert_eq!(twice.espeak.pitch, once.espeak.pitch);
    assert_eq!(twice.espeak.gap, once.espeak.gap);
    assert_eq!(twice.espeak.speed, once.espeak.speed);
    assert_eq!(twice.enable, once.enable);
}

#[test]
fn empty_song_form_changes_nothing() {
    let mut song = SpotifmSongConfig { enable: true, espeak: espeak() };
    edit_announce_song(&mut song, &empty_song_form());
    assert!(song.enable);
    assert_eq!(song.espeak.speed, 180);
    assert_eq!(song.espeak.voice, "en-us");
}

#[test]
fn bumper_form_appends_tag_and_keeps_position() {
    let mut b = bumper();
    let form = AnnounceBumper {
        enable: Some(true),
        tag: Some("c".to_string()),
        freq: Some(3),
        amplitude: Some(20),
        ..empty_bumper_form()
    };
    edit_announce_bumper(&mut b, &form);
    assert!(b.enable);
    assert_eq!(b.tags, vec!["a", "b", "c"]);
    assert_eq!(b.freq, 3);
    assert_eq!(b.espeak.amplitude, 20);
    assert_eq!(b.espeak.speed, 180);
    assert_eq!(b.idx, Some(1));
    assert_eq!(b.next(), "b");
}

#[test]
fn bumper_form_twice_adds_tag_twice() {
    let mut b = bumper();
    let form = AnnounceBumper { tag: Some("c".to_string()), ..empty_bumper_form() };
    edit_announce_bumper(&mut b, &form);
    edit_announce_bumper(&mut b, &form);
    assert_eq!(b.tags, vec!["a", "b", "c", "c"]);
}

#[test]
fn announce_sections_by_name() {
    assert_eq!(announce_section("bumper"), Some(AnnounceSection::Bumper));
    assert_eq!(announce_section("song"), Some(AnnounceSection::Song));
    assert_eq!(announce_section("Song"), None);
    assert_eq!(announce_section(""), None);
}

#[test]
fn queue_target_prefers_the_playing_track() {
    assert_eq!(queue_target("t1", "t1", "t1"), QueueTarget::NowPlaying);
    assert_eq!(queue_target("t1", "t2", "t2"), QueueTarget::NextUp);
    assert_eq!(queue_target("t1", "t2", "t3"), QueueTarget::Fetch);
}

#[test]
fn same_text_compares_characters() {
    assert!(same_text("abc", "abc"));
    assert!(!same_text("abc", "abd"));
    assert!(!same_text("abc", "ab"));
}

#[test]
fn search_url_lowercases_the_type() {
    assert_eq!(
        search_url("daft punk", "TRACK", 20),
        "https://api.spotify.com/v1/search?q=daft punk&type=track&limit=20"
    );
    assert_eq!(
        search_url("x", "Album", 0),
        "https://api.spotify.com/v1/search?q=x&type=album&limit=0"
    );
    assert_eq!(
        search_url("", "artist", 4294967295),
        "https://api.spotify.com/v1/search?q=&type=artist&limit=4294967295"
    );
}

#[test]
fn track_fields_use_the_document() {
    let doc = TrackDocument {
        id: Some("abc".to_string()),
        name: Some("Song".to_string()),
        artists: Some(vec![Some("A".to_string()), None, Some("B".to_string())]),
    };
    let (id, name, artists) = track_fields(&doc, "requested");
    assert_eq!(id, "abc");
    assert_eq!(name, "Song");
    assert_eq!(artists, vec!["A", "B"]);
}

#[test]
fn track_fields_fall_back_when_missing() {
    let doc = TrackDocument { id: None, name: None, artists: None };
    let (id, name, artists) = track_fields(&doc, "requested");
    assert_eq!(id, "requested");
    assert_eq!(name, "");
    assert!(artists.is_empty());
}
