use media_controller::controller::{LinuxMediaController, MetadataLookup};
use media_controller::models::{
    MediaMetadata, PlaybackInfo, PlaybackStatus, RepeatMode, UNIT_RATE_BITS, ZERO_SECONDS_BITS,
};
use media_controller::mpris::{MetadataDict, MetadataValue};
use media_controller::remote::{is_other_player_name, remote_metadata, MetadataField, RemoteEntry};
use media_controller::mpris::{loop_status_name, playback_status_name};
use media_controller::text::{contains, starts_with};

fn info(status: PlaybackStatus, position: f64) -> PlaybackInfo {
    PlaybackInfo {
        status,
        position_bits: position.to_bits(),
        playback_rate_bits: 1.5f64.to_bits(),
        shuffle: true,
        repeat_mode: RepeatMode::List,
    }
}

fn song() -> MediaMetadata {
    MediaMetadata {
        title: "Song".to_string(),
        artist: Some("Singer".to_string()),
        album: None,
        album_artist: Some("Band".to_string()),
        artwork_url: None,
        artwork_data: None,
        duration_bits: Some(180.5f64.to_bits()),
    }
}

fn keys(d: &MetadataDict) -> Vec<String> {
    d.entries.iter().map(|e| e.key.clone()).collect()
}

fn text(v: &MetadataValue) -> String {
    match v {
        MetadataValue::Text(s) => s.clone(),
        _ => panic!("not a text value"),
    }
}

fn connected(app_id: &str) -> LinuxMediaController {
    let mut c = LinuxMediaController::new();
    let _ = c.initialize_session(app_id.to_string(), "My App".to_string());
    c.session_established();
    c
}

#[test]
fn new_controller_reports_defaults() {
    let c = LinuxMediaController::new();
    assert_eq!(c.get_playback_status(), PlaybackStatus::Stopped);
    assert_eq!(c.get_position(), ZERO_SECONDS_BITS);
    assert_eq!(f64::from_bits(c.get_position()), 0.0);
    assert!(c.get_playback_info().is_none());
    assert!(!c.is_enabled());
}

#[test]
fn status_and_position_need_playback_info() {
    let mut c = connected("app");
    assert!(c.set_playback_status(PlaybackStatus::Playing).is_none());
    assert!(c.set_position(10.0f64.to_bits()).is_none());
    assert_eq!(c.get_playback_status(), PlaybackStatus::Stopped);
    assert!(c.get_playback_info().is_none());
}

#[test]
fn playback_info_is_read_back() {
    let mut c = LinuxMediaController::new();
    assert!(c.set_playback_info(info(PlaybackStatus::Paused, 12.25)).is_none());
    assert_eq!(c.get_playback_info(), Some(info(PlaybackStatus::Paused, 12.25)));
    assert_eq!(c.get_playback_status(), PlaybackStatus::Paused);
    assert_eq!(f64::from_bits(c.get_position()), 12.25);
    assert!(c.set_playback_status(PlaybackStatus::Playing).is_none());
    assert_eq!(c.get_playback_status(), PlaybackStatus::Playing);
    assert!(c.set_position(3.0f64.to_bits()).is_none());
    assert_eq!(c.get_playback_info(), Some(info(PlaybackStatus::Playing, 3.0)));
}

#[test]
fn playback_signal_when_connected() {
    let mut c = connected("app");
    assert!(c.is_enabled());
    let p = c.set_playback_info(info(PlaybackStatus::Playing, 2.0)).unwrap();
    assert_eq!(p.playback_status, "Playing");
    assert_eq!(p.loop_status, "Playlist");
    assert_eq!(f64::from_bits(p.rate_bits), 1.5);
    assert!(p.shuffle);
    assert_eq!(f64::from_bits(p.position_bits), 2.0);
    let p = c.set_playback_status(PlaybackStatus::Stopped).unwrap();
    assert_eq!(p.playback_status, "Stopped");
    assert_eq!(f64::from_bits(p.position_bits), 2.0);
    let p = c.set_position(7.5f64.to_bits()).unwrap();
    assert_eq!(p.playback_status, "Stopped");
    assert_eq!(f64::from_bits(p.position_bits), 7.5);
}

#[test]
fn status_and_loop_names() {
    assert_eq!(playback_status_name(PlaybackStatus::Playing), "Playing");
    assert_eq!(playback_status_name(PlaybackStatus::Paused), "Paused");
    assert_eq!(playback_status_name(PlaybackStatus::Stopped), "Stopped");
    assert_eq!(loop_status_name(RepeatMode::NoRepeat), "None");
    assert_eq!(loop_status_name(RepeatMode::Track), "Track");
    assert_eq!(loop_status_name(RepeatMode::List), "Playlist");
}

#[test]
fn registration_of_a_new_session() {
    let mut c = LinuxMediaController::new();
    let plan = c.initialize_session("myapp".to_string(), "My App".to_string());
    assert!(!c.is_enabled());
    assert_eq!(plan.bus_name, "org.mpris.MediaPlayer2.myapp");
    assert_eq!(plan.identity, "My App");
    assert_eq!(plan.supported_uri_schemes, vec!["file", "http", "https"]);
    assert_eq!(plan.supported_mime_types, vec!["audio/mpeg", "audio/mp4", "audio/ogg"]);
    assert_eq!(plan.player.playback_status, "Stopped");
    assert_eq!(plan.player.loop_status, "None");
    assert_eq!(plan.player.rate_bits, UNIT_RATE_BITS);
    assert_eq!(f64::from_bits(plan.player.rate_bits), 1.0);
    assert!(!plan.player.shuffle);
    assert_eq!(plan.player.position_bits, 0);
    assert!(plan.metadata.entries.is_empty());
    assert!(plan.metadata.artwork_file.is_none());
    assert!(!plan.capabilities.can_quit);
    assert!(!plan.capabilities.can_raise);
    assert!(!plan.capabilities.has_track_list);
    assert!(plan.capabilities.can_go_next && plan.capabilities.can_go_previous);
    assert!(plan.capabilities.can_play && plan.capabilities.can_pause);
    assert!(plan.capabilities.can_seek && plan.capabilities.can_control);
    assert_eq!(f64::from_bits(plan.capabilities.volume_bits), 1.0);
    assert_eq!(f64::from_bits(plan.capabilities.minimum_rate_bits), 1.0);
    assert_eq!(f64::from_bits(plan.capabilities.maximum_rate_bits), 1.0);
    c.session_established();
    assert!(c.is_enabled());
}

#[test]
fn registration_snapshots_current_state() {
    let mut c = LinuxMediaController::new();
    let _ = c.set_playback_info(info(PlaybackStatus::Playing, 1.0));
    let _ = c.set_metadata(song());
    let plan = c.initialize_session("x".to_string(), "X".to_string());
    assert_eq!(plan.player.playback_status, "Playing");
    assert_eq!(plan.player.loop_status, "Playlist");
    assert_eq!(keys(&plan.metadata).len(), 5);
}

#[test]
fn metadata_dictionary_entries() {
    let mut c = connected("app");
    let d = c.set_metadata(song()).unwrap();
    assert_eq!(
        keys(&d),
        vec!["mpris:trackid", "xesam:title", "xesam:artist", "xesam:albumArtist", "mpris:length"]
    );
    assert_eq!(text(&d.entries[0].value), "/org/mpris/MediaPlayer2/Track/1");
    assert_eq!(text(&d.entries[1].value), "Song");
    match &d.entries[2].value {
        MetadataValue::TextList(l) => assert_eq!(l, &vec!["Singer".to_string()]),
        _ => panic!("artist is a list"),
    }
    match &d.entries[3].value {
        MetadataValue::TextList(l) => assert_eq!(l, &vec!["Band".to_string()]),
        _ => panic!("album artist is a list"),
    }
    match &d.entries[4].value {
        MetadataValue::LengthSeconds(b) => assert_eq!(f64::from_bits(*b), 180.5),
        _ => panic!("length"),
    }
    assert!(d.artwork_file.is_none());
}

#[test]
fn metadata_not_announced_without_connection() {
    let mut c = LinuxMediaController::new();
    assert!(c.set_metadata(song()).is_none());
    assert!(c.clear_metadata().is_none());
}

#[test]
fn artwork_url_wins_over_artwork_data() {
    let mut c = connected("app");
    let mut m = song();
    m.artwork_url = Some("https://x/y.png".to_string());
    m.artwork_data = Some(vec![1, 2, 3]);
    let d = c.set_metadata(m).unwrap();
    let last = d.entries.last().unwrap();
    assert_eq!(last.key, "mpris:artUrl");
    assert_eq!(text(&last.value), "https://x/y.png");
    assert!(d.artwork_file.is_none());
}

#[test]
fn artwork_data_goes_through_a_file() {
    let mut c = connected("com.example");
    let mut m = song();
    m.album = Some("Album".to_string());
    m.duration_bits = None;
    m.artwork_data = Some(vec![9, 8]);
    let mut d = c.set_metadata(m).unwrap();
    assert_eq!(
        keys(&d),
        vec!["mpris:trackid", "xesam:title", "xesam:artist", "xesam:album", "xesam:albumArtist"]
    );
    let file = d.artwork_file.as_ref().unwrap();
    assert_eq!(file.file_name, "mpris_artwork_com.example.jpg");
    assert_eq!(file.data, vec![9, 8]);
    d.add_artwork_url("/tmp/mpris_artwork_com.example.jpg");
    let last = d.entries.last().unwrap();
    assert_eq!(last.key, "mpris:artUrl");
    assert_eq!(text(&last.value), "file:///tmp/mpris_artwork_com.example.jpg");
}

#[test]
fn clear_metadata_announces_empty_dictionary() {
    let mut c = connected("app");
    let _ = c.set_metadata(song());
    let d = c.clear_metadata().unwrap();
    assert!(d.entries.is_empty());
    assert!(d.artwork_file.is_none());
    match c.get_metadata(&vec![]) {
        MetadataLookup::Done(m) => assert!(m.is_none()),
        MetadataLookup::Fetch(_) => panic!("nothing to fetch"),
    }
}

#[test]
fn metadata_dictionary_keys_are_distinct() {
    let mut c = connected("app");
    let mut m = song();
    m.album = Some("A".to_string());
    m.artwork_url = Some("u".to_string());
    let d = c.set_metadata(m).unwrap();
    let k = keys(&d);
    assert_eq!(k.len(), 7);
    for i in 0..k.len() {
        for j in (i + 1)..k.len() {
            assert_ne!(k[i], k[j]);
        }
    }
}

#[test]
fn other_player_names() {
    assert!(is_other_player_name("org.mpris.MediaPlayer2.vlc", "myapp"));
    assert!(!is_other_player_name("org.mpris.MediaPlayer2.myapp", "myapp"));
    assert!(!is_other_player_name("org.mpris.MediaPlayer2.myapp.instance2", "myapp"));
    assert!(!is_other_player_name("org.freedesktop.DBus", "myapp"));
    assert!(!is_other_player_name("org.mpris.MediaPlayer2", "myapp"));
    assert!(!is_other_player_name("org.mpris.MediaPlayer2.vlc", ""));
}

fn entry(key: &str, value: MetadataField) -> RemoteEntry {
    RemoteEntry { key: Some(key.to_string()), value }
}

fn t(s: &str) -> MetadataField {
    MetadataField::Text(s.to_string())
}

#[test]
fn remote_metadata_reads_title_artist_album_art() {
    let es = vec![
        entry("xesam:title", t("Remote")),
        entry("xesam:artist", MetadataField::List(vec![Some("A1".to_string()), Some("A2".to_string())])),
        entry("xesam:album", t("Alb")),
        entry("mpris:artUrl", t("file:///a.png")),
        entry("mpris:length", MetadataField::Other),
    ];
    let m = remote_metadata(&es).unwrap();
    assert_eq!(m.title, "Remote");
    assert_eq!(m.artist.as_deref(), Some("A1"));
    assert_eq!(m.album.as_deref(), Some("Alb"));
    assert_eq!(m.artwork_url.as_deref(), Some("file:///a.png"));
    assert!(m.album_artist.is_none());
    assert!(m.artwork_data.is_none());
    assert!(m.duration_bits.is_none());
}

#[test]
fn remote_metadata_defaults_and_absence() {
    let only_artist = vec![entry("xesam:artist", MetadataField::List(vec![Some("Z".to_string())]))];
    let m = remote_metadata(&only_artist).unwrap();
    assert_eq!(m.title, "Unknown");
    assert_eq!(m.artist.as_deref(), Some("Z"));
    let nothing = vec![
        entry("xesam:album", t("Alb")),
        entry("xesam:title", MetadataField::Other),
        entry("xesam:artist", MetadataField::List(vec![None, Some("Y".to_string())])),
        entry("xesam:artist", MetadataField::List(vec![])),
        RemoteEntry { key: None, value: t("T") },
    ];
    assert!(remote_metadata(&nothing).is_none());
    assert!(remote_metadata(&vec![]).is_none());
}

#[test]
fn remote_metadata_later_entries_win() {
    let es = vec![entry("xesam:title", t("First")), entry("xesam:title", t("Second")), entry("xesam:title", MetadataField::Other)];
    assert_eq!(remote_metadata(&es).unwrap().title, "Second");
}

#[test]
fn metadata_lookup_walks_other_players() {
    let mut c = connected("myapp");
    let _ = c.set_metadata(song());
    let names: Vec<String> = vec![
        "org.freedesktop.DBus".to_string(),
        "org.mpris.MediaPlayer2.myapp".to_string(),
        "org.mpris.MediaPlayer2.first".to_string(),
        ":1.42".to_string(),
        "org.mpris.MediaPlayer2.second".to_string(),
    ];
    let i = match c.get_metadata(&names) {
        MetadataLookup::Fetch(i) => i,
        MetadataLookup::Done(_) => panic!("should fetch"),
    };
    assert_eq!(i, 2);
    let j = match c.continue_metadata_lookup(&names, i, Some(vec![entry("xesam:album", t("x"))])) {
        MetadataLookup::Fetch(j) => j,
        MetadataLookup::Done(_) => panic!("should go on"),
    };
    assert_eq!(j, 4);
    match c.continue_metadata_lookup(&names, j, Some(vec![entry("xesam:title", t("Other"))])) {
        MetadataLookup::Done(Some(m)) => assert_eq!(m.title, "Other"),
        _ => panic!("should report the second player's metadata"),
    }
    match c.continue_metadata_lookup(&names, j, None) {
        MetadataLookup::Done(Some(m)) => assert_eq!(m.title, "Song"),
        _ => panic!("should fall back to own metadata"),
    }
}

#[test]
fn metadata_read_back_without_other_players() {
    let mut c = LinuxMediaController::new();
    match c.get_metadata(&vec!["org.mpris.MediaPlayer2.vlc".to_string()]) {
        MetadataLookup::Done(m) => assert!(m.is_none()),
        _ => panic!("an empty app id contains every name: nothing to fetch"),
    }
    let _ = c.set_metadata(song());
    match c.get_metadata(&vec![]) {
        MetadataLookup::Done(Some(m)) => {
            assert_eq!(m.title, "Song");
            assert_eq!(m.artist.as_deref(), Some("Singer"));
            assert_eq!(m.duration_bits, Some(180.5f64.to_bits()));
        }
        _ => panic!("own metadata"),
    }
}

#[test]
fn text_search() {
    assert!(starts_with("abcdef", "abc"));
    assert!(starts_with("abc", ""));
    assert!(!starts_with("ab", "abc"));
    assert!(contains("abcdef", "cde"));
    assert!(contains("abc", ""));
    assert!(!contains("abc", "abd"));
    assert!(contains("héllo wörld", "ö"));
}

#[test]
fn published_properties_match_reported_state() {
    let mut c = connected("app");
    let p = c.set_playback_info(info(PlaybackStatus::Paused, 4.0)).unwrap();
    assert_eq!(p.playback_status, playback_status_name(c.get_playback_status()));
    assert_eq!(p.position_bits, c.get_position());
    let plan = c.registration();
    assert_eq!(plan.player.playback_status, "Paused");
    assert_eq!(plan.player.position_bits, c.get_position());
}

#[test]
fn unconnected_session_reports_own_metadata() {
    let mut c = LinuxMediaController::new();
    let _ = c.initialize_session("myapp".to_string(), "My App".to_string());
    let names = vec!["org.mpris.MediaPlayer2.vlc".to_string()];
    let _ = c.set_metadata(song());
    match c.get_metadata(&names) {
        MetadataLookup::Done(Some(m)) => assert_eq!(m.title, "Song"),
        _ => panic!("no connection: own metadata, nothing fetched"),
    }
    let _ = c.clear_metadata();
    let _ = c.clear_metadata();
    match c.get_metadata(&names) {
        MetadataLookup::Done(m) => assert!(m.is_none()),
        MetadataLookup::Fetch(_) => panic!("no connection: nothing fetched"),
    }
}

#[test]
fn skipped_player_does_not_change_the_result() {
    let mut c = connected("myapp");
    let _ = c.set_metadata(song());
    let with_skipped = vec!["org.mpris.MediaPlayer2.a".to_string(), "org.mpris.MediaPlayer2.b".to_string()];
    let i = match c.get_metadata(&with_skipped) {
        MetadataLookup::Fetch(i) => i,
        _ => panic!("should fetch"),
    };
    let j = match c.continue_metadata_lookup(&with_skipped, i, None) {
        MetadataLookup::Fetch(j) => j,
        _ => panic!("should go on"),
    };
    let r1 = c.continue_metadata_lookup(&with_skipped, j, Some(vec![entry("xesam:title", t("B"))]));
    let without = vec!["org.mpris.MediaPlayer2.b".to_string()];
    let k = match c.get_metadata(&without) {
        MetadataLookup::Fetch(k) => k,
        _ => panic!("should fetch"),
    };
    let r2 = c.continue_metadata_lookup(&without, k, Some(vec![entry("xesam:title", t("B"))]));
    match (r1, r2) {
        (MetadataLookup::Done(Some(a)), MetadataLookup::Done(Some(b))) => assert_eq!(a.title, b.title),
        _ => panic!("both report B"),
    }
}
