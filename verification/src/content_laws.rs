//! What the published and read values hold, stated field by field against
//! the inputs they come from.
use vstd::prelude::*;
use crate::controller::{
    first_other_player, lookup_after_fetch, lookup_from, registration_of,
    ControllerView, MetadataLookupView,
};
use crate::models::{MediaMetadataView, PlaybackInfo, PlaybackStatus, RepeatMode};
use crate::mpris::{
    artwork_file_of, metadata_entries, player_properties_of, MetadataEntryView,
    MetadataValueView, PlayerPropertiesView,
};
use crate::text::{contains_seq, occurs_at};
use crate::remote::{
    field_text, is_other_player, last_text, remote_metadata_of, MetadataFieldView,
    RemoteEntryView,
};

verus! {

/// `needle` occurs nowhere in `s`.
pub open spec fn nowhere_in(s: Seq<char>, needle: Seq<char>) -> bool {
    forall|i: int| 0 <= i && i + needle.len() <= s.len() ==> #[trigger] s.subrange(i, i + needle.len()) != needle
}

/// A bus name is another player's exactly when its first characters are
/// `org.mpris.MediaPlayer2.` and the application id occurs nowhere in it;
/// nothing else about the name matters.
pub proof fn lemma_other_player_exactly(name: Seq<char>, app_id: Seq<char>)
    ensures
        is_other_player(name, app_id) <==> (name.len() >= 23 && name.subrange(0, 23)
            == "org.mpris.MediaPlayer2."@ && nowhere_in(name, app_id)),
{
    reveal_strlit("org.mpris.MediaPlayer2.");
    assert("org.mpris.MediaPlayer2."@.len() == 23);
    if contains_seq(name, app_id) {
        let i = choose|i: int| occurs_at(name, app_id, i);
        assert(name.subrange(i, i + app_id.len()) == app_id);
        assert(!nowhere_in(name, app_id));
    }
    if !nowhere_in(name, app_id) {
        let i = choose|i: int|
            0 <= i && i + app_id.len() <= name.len() && #[trigger] name.subrange(
                i,
                i + app_id.len(),
            ) == app_id;
        assert(occurs_at(name, app_id, i));
    }
}

/// Every name made of the MPRIS prefix and any suffix is another player's,
/// unless the application id occurs in it.
pub proof fn lemma_any_suffix_is_other_player(suffix: Seq<char>, app_id: Seq<char>)
    requires
        nowhere_in("org.mpris.MediaPlayer2."@ + suffix, app_id),
    ensures
        is_other_player("org.mpris.MediaPlayer2."@ + suffix, app_id),
{
    reveal_strlit("org.mpris.MediaPlayer2.");
    let name = "org.mpris.MediaPlayer2."@ + suffix;
    assert(name.subrange(0, 23) =~= "org.mpris.MediaPlayer2."@);
    lemma_other_player_exactly(name, app_id);
}

/// The playback properties published for stored playback information: its
/// status as `Playing`/`Paused`/`Stopped`, its repeat mode as
/// `None`/`Track`/`Playlist`, and its rate, shuffle and position as stored.
pub proof fn lemma_published_playback(info: PlaybackInfo)
    ensures
        player_properties_of(Some(info)).playback_status == match info.status {
            PlaybackStatus::Playing => "Playing"@,
            PlaybackStatus::Paused => "Paused"@,
            PlaybackStatus::Stopped => "Stopped"@,
        },
        player_properties_of(Some(info)).loop_status == match info.repeat_mode {
            RepeatMode::NoRepeat => "None"@,
            RepeatMode::Track => "Track"@,
            RepeatMode::List => "Playlist"@,
        },
        player_properties_of(Some(info)).rate_bits == info.playback_rate_bits,
        player_properties_of(Some(info)).shuffle == info.shuffle,
        player_properties_of(Some(info)).position_bits == info.position_bits,
{
}

/// Without playback information the published properties are: stopped,
/// loop `None`, rate 1.0, no shuffle, position 0.
pub proof fn lemma_published_playback_default()
    ensures
        player_properties_of(None) == (PlayerPropertiesView {
            playback_status: "Stopped"@,
            loop_status: "None"@,
            rate_bits: 0x3FF0_0000_0000_0000u64,
            shuffle: false,
            position_bits: 0u64,
        }),
{
}

/// A session starts with what it holds: the bus name is the MPRIS prefix
/// followed by the application id, the identity is the application name, the
/// playback properties are those that storing its playback information
/// announces (its rate the stored rate), and the metadata dictionary is that
/// of its stored metadata.
pub proof fn lemma_registration_holds_state(c: ControllerView)
    ensures
        registration_of(c).bus_name == "org.mpris.MediaPlayer2."@ + c.app_id,
        registration_of(c).identity == c.app_name,
        registration_of(c).metadata.entries == metadata_entries(c.metadata),
        registration_of(c).metadata.artwork_file == artwork_file_of(c.metadata, c.app_id),
        c.playback_info matches Some(i) ==> registration_of(c).player == player_properties_of(
            Some(i),
        ) && registration_of(c).player.rate_bits == i.playback_rate_bits
            && registration_of(c).player.shuffle == i.shuffle
            && registration_of(c).player.position_bits == i.position_bits,
        c.playback_info is None ==> registration_of(c).player == player_properties_of(None),
{
}

/// Registering after storing playback information publishes the same
/// playback properties that storing it announces.
pub proof fn lemma_registration_agrees_with_announcement(c: ControllerView, info: PlaybackInfo)
    ensures
        registration_of(c.with_playback_info(info)).player == player_properties_of(Some(info)),
        registration_of(c.with_playback_info(info)).player.rate_bits == info.playback_rate_bits,
{
}

/// Entry `e` is under `key` with a string value.
pub open spec fn text_under(e: RemoteEntryView, key: Seq<char>) -> bool {
    e.key == Some(key) && e.value is Text
}

/// Entry `e` is under `key` with an array value whose first element is a
/// string.
pub open spec fn list_with_text_under(e: RemoteEntryView, key: Seq<char>) -> bool {
    e.key == Some(key) && match e.value {
        MetadataFieldView::List(l) => l.len() > 0 && l[0] is Some,
        _ => false,
    }
}

/// The text of a string or array value: the string, or the first element.
pub open spec fn value_text(v: MetadataFieldView) -> Seq<char> {
    match v {
        MetadataFieldView::Text(s) => s,
        MetadataFieldView::List(l) => l[0]->0,
        MetadataFieldView::Other => Seq::empty(),
    }
}

/// Entry `e` gives text under `key`: a string, or, for the artist key, an
/// array whose first element is a string.
spec fn gives(e: RemoteEntryView, key: Seq<char>, first_of_list: bool) -> bool {
    if first_of_list {
        list_with_text_under(e, key)
    } else {
        text_under(e, key)
    }
}

proof fn lemma_gives(e: RemoteEntryView, key: Seq<char>, first_of_list: bool)
    ensures
        gives(e, key, first_of_list) <==> (e.key == Some(key) && field_text(e.value, first_of_list) is Some),
        gives(e, key, first_of_list) ==> field_text(e.value, first_of_list) == Some(value_text(e.value)),
{
}

proof fn lemma_last_text_none(es: Seq<RemoteEntryView>, key: Seq<char>, first_of_list: bool)
    requires
        forall|i: int| 0 <= i < es.len() ==> !gives(#[trigger] es[i], key, first_of_list),
    ensures
        last_text(es, key, first_of_list) is None,
    decreases es.len(),
{
    if es.len() > 0 {
        lemma_gives(es.last(), key, first_of_list);
        assert forall|i: int| 0 <= i < es.drop_last().len() implies !gives(
            #[trigger] es.drop_last()[i],
            key,
            first_of_list,
        ) by {
            assert(es.drop_last()[i] == es[i]);
        }
        lemma_last_text_none(es.drop_last(), key, first_of_list);
    }
}

proof fn lemma_last_text_at(es: Seq<RemoteEntryView>, key: Seq<char>, first_of_list: bool, i: int)
    requires
        0 <= i < es.len(),
        gives(es[i], key, first_of_list),
        forall|j: int| i < j < es.len() ==> !gives(#[trigger] es[j], key, first_of_list),
    ensures
        last_text(es, key, first_of_list) == Some(value_text(es[i].value)),
    decreases es.len(),
{
    lemma_gives(es.last(), key, first_of_list);
    lemma_gives(es[i], key, first_of_list);
    if i < es.len() - 1 {
        assert forall|j: int| i < j < es.drop_last().len() implies !gives(
            #[trigger] es.drop_last()[j],
            key,
            first_of_list,
        ) by {
            assert(es.drop_last()[j] == es[j]);
        }
        assert(es.drop_last()[i] == es[i]);
        lemma_last_text_at(es.drop_last(), key, first_of_list, i);
    }
}

/// Another player's dictionary gives metadata exactly when some entry has a
/// string title or an artist array whose first element is a string.
pub proof fn lemma_remote_metadata_present(es: Seq<RemoteEntryView>)
    ensures
        remote_metadata_of(es) is Some <==> exists|i: int|
            0 <= i < es.len() && (text_under(#[trigger] es[i], "xesam:title"@)
                || list_with_text_under(es[i], "xesam:artist"@)),
{
    if exists|i: int|
        0 <= i < es.len() && (text_under(#[trigger] es[i], "xesam:title"@) || list_with_text_under(
            es[i],
            "xesam:artist"@,
        )) {
        let i = choose|i: int|
            0 <= i < es.len() && (text_under(#[trigger] es[i], "xesam:title"@)
                || list_with_text_under(es[i], "xesam:artist"@));
        if text_under(es[i], "xesam:title"@) {
            lemma_last_present(es, "xesam:title"@, false, i);
        } else {
            lemma_last_present(es, "xesam:artist"@, true, i);
        }
    } else {
        lemma_last_text_none(es, "xesam:title"@, false);
        lemma_last_text_none(es, "xesam:artist"@, true);
    }
}

proof fn lemma_last_present(es: Seq<RemoteEntryView>, key: Seq<char>, first_of_list: bool, i: int)
    requires
        0 <= i < es.len(),
        gives(es[i], key, first_of_list),
    ensures
        last_text(es, key, first_of_list) is Some,
    decreases es.len(),
{
    lemma_gives(es.last(), key, first_of_list);
    if i < es.len() - 1 {
        assert(es.drop_last()[i] == es[i]);
        lemma_last_present(es.drop_last(), key, first_of_list, i);
    }
}

/// A field read from another player's dictionary under `key` is the value
/// of the last entry that gives one (the string; for the artist, the first
/// element of the array), and absent when no entry gives one.
pub proof fn lemma_remote_field(es: Seq<RemoteEntryView>, i: int)
    requires
        remote_metadata_of(es) is Some,
    ensures
        (0 <= i < es.len() && text_under(es[i], "xesam:title"@) && (forall|j: int|
            i < j < es.len() ==> !text_under(#[trigger] es[j], "xesam:title"@)))
            ==> remote_metadata_of(es)->0.title == value_text(es[i].value),
        (0 <= i < es.len() && list_with_text_under(es[i], "xesam:artist"@) && (forall|j: int|
            i < j < es.len() ==> !list_with_text_under(#[trigger] es[j], "xesam:artist"@)))
            ==> remote_metadata_of(es)->0.artist == Some(value_text(es[i].value)),
        (0 <= i < es.len() && text_under(es[i], "xesam:album"@) && (forall|j: int|
            i < j < es.len() ==> !text_under(#[trigger] es[j], "xesam:album"@)))
            ==> remote_metadata_of(es)->0.album == Some(value_text(es[i].value)),
        (0 <= i < es.len() && text_under(es[i], "mpris:artUrl"@) && (forall|j: int|
            i < j < es.len() ==> !text_under(#[trigger] es[j], "mpris:artUrl"@)))
            ==> remote_metadata_of(es)->0.artwork_url == Some(value_text(es[i].value)),
{
    if 0 <= i < es.len() {
        if text_under(es[i], "xesam:title"@) && (forall|j: int|
            i < j < es.len() ==> !text_under(#[trigger] es[j], "xesam:title"@)) {
            lemma_last_text_at(es, "xesam:title"@, false, i);
        }
        if list_with_text_under(es[i], "xesam:artist"@) && (forall|j: int|
            i < j < es.len() ==> !list_with_text_under(#[trigger] es[j], "xesam:artist"@)) {
            lemma_last_text_at(es, "xesam:artist"@, true, i);
        }
        if text_under(es[i], "xesam:album"@) && (forall|j: int|
            i < j < es.len() ==> !text_under(#[trigger] es[j], "xesam:album"@)) {
            lemma_last_text_at(es, "xesam:album"@, false, i);
        }
        if text_under(es[i], "mpris:artUrl"@) && (forall|j: int|
            i < j < es.len() ==> !text_under(#[trigger] es[j], "mpris:artUrl"@)) {
            lemma_last_text_at(es, "mpris:artUrl"@, false, i);
        }
    }
}

/// Of metadata read from another player's dictionary: the title is
/// "Unknown" when no entry has a string title; the artist, album and
/// artwork URL are absent when no entry gives them; album artist, artwork
/// bytes and duration are never read.
pub proof fn lemma_remote_absent_fields(es: Seq<RemoteEntryView>)
    requires
        remote_metadata_of(es) is Some,
    ensures
        (forall|j: int| 0 <= j < es.len() ==> !text_under(#[trigger] es[j], "xesam:title"@))
            ==> remote_metadata_of(es)->0.title == "Unknown"@,
        (forall|j: int| 0 <= j < es.len() ==> !list_with_text_under(#[trigger] es[j], "xesam:artist"@))
            ==> remote_metadata_of(es)->0.artist is None,
        (forall|j: int| 0 <= j < es.len() ==> !text_under(#[trigger] es[j], "xesam:album"@))
            ==> remote_metadata_of(es)->0.album is None,
        (forall|j: int| 0 <= j < es.len() ==> !text_under(#[trigger] es[j], "mpris:artUrl"@))
            ==> remote_metadata_of(es)->0.artwork_url is None,
        remote_metadata_of(es)->0.album_artist is None,
        remote_metadata_of(es)->0.artwork_data is None,
        remote_metadata_of(es)->0.duration_bits is None,
{
    if forall|j: int| 0 <= j < es.len() ==> !text_under(#[trigger] es[j], "xesam:title"@) {
        lemma_last_text_none(es, "xesam:title"@, false);
    }
    if forall|j: int| 0 <= j < es.len() ==> !list_with_text_under(#[trigger] es[j], "xesam:artist"@) {
        lemma_last_text_none(es, "xesam:artist"@, true);
    }
    if forall|j: int| 0 <= j < es.len() ==> !text_under(#[trigger] es[j], "xesam:album"@) {
        lemma_last_text_none(es, "xesam:album"@, false);
    }
    if forall|j: int| 0 <= j < es.len() ==> !text_under(#[trigger] es[j], "mpris:artUrl"@) {
        lemma_last_text_none(es, "mpris:artUrl"@, false);
    }
}

/// The entry with key `key` and value `value`.
pub open spec fn keyed(key: Seq<char>, value: MetadataValueView) -> MetadataEntryView {
    MetadataEntryView { key, value }
}

/// No entry of `es` has key `key`.
pub open spec fn key_absent(es: Seq<MetadataEntryView>, key: Seq<char>) -> bool {
    forall|i: int| 0 <= i < es.len() ==> (#[trigger] es[i]).key != key
}

/// Each present field of the metadata appears in the published dictionary
/// under its key with its own value (artist and album artist as one-element
/// lists, the duration as a length), beside the track id; each absent field
/// has no entry.
pub proof fn lemma_metadata_dict_fields(m: MediaMetadataView)
    ensures
        metadata_entries(Some(m)).contains(
            keyed("mpris:trackid"@, MetadataValueView::Text("/org/mpris/MediaPlayer2/Track/1"@)),
        ),
        metadata_entries(Some(m)).contains(keyed("xesam:title"@, MetadataValueView::Text(m.title))),
        m.artist matches Some(a) ==> metadata_entries(Some(m)).contains(
            keyed("xesam:artist"@, MetadataValueView::TextList(seq![a])),
        ),
        m.album matches Some(a) ==> metadata_entries(Some(m)).contains(
            keyed("xesam:album"@, MetadataValueView::Text(a)),
        ),
        m.album_artist matches Some(a) ==> metadata_entries(Some(m)).contains(
            keyed("xesam:albumArtist"@, MetadataValueView::TextList(seq![a])),
        ),
        m.duration_bits matches Some(b) ==> metadata_entries(Some(m)).contains(
            keyed("mpris:length"@, MetadataValueView::LengthSeconds(b)),
        ),
        m.artwork_url matches Some(u) ==> metadata_entries(Some(m)).contains(
            keyed("mpris:artUrl"@, MetadataValueView::Text(u)),
        ),
        m.artist is None ==> key_absent(metadata_entries(Some(m)), "xesam:artist"@),
        m.album is None ==> key_absent(metadata_entries(Some(m)), "xesam:album"@),
        m.album_artist is None ==> key_absent(metadata_entries(Some(m)), "xesam:albumArtist"@),
        m.duration_bits is None ==> key_absent(metadata_entries(Some(m)), "mpris:length"@),
        m.artwork_url is None ==> key_absent(metadata_entries(Some(m)), "mpris:artUrl"@),
        metadata_entries(None).len() == 0,
{
    reveal_strlit("mpris:trackid");
    reveal_strlit("xesam:title");
    reveal_strlit("xesam:artist");
    reveal_strlit("xesam:album");
    reveal_strlit("xesam:albumArtist");
    reveal_strlit("mpris:length");
    reveal_strlit("mpris:artUrl");
    let s0 = seq![
        keyed("mpris:trackid"@, MetadataValueView::Text("/org/mpris/MediaPlayer2/Track/1"@)),
        keyed("xesam:title"@, MetadataValueView::Text(m.title)),
    ];
    let a = crate::mpris::optional_entry("xesam:artist"@, crate::mpris::singleton_list_value(m.artist));
    let b = crate::mpris::optional_entry("xesam:album"@, crate::mpris::text_value(m.album));
    let c = crate::mpris::optional_entry(
        "xesam:albumArtist"@,
        crate::mpris::singleton_list_value(m.album_artist),
    );
    let d = crate::mpris::optional_entry("mpris:length"@, crate::mpris::length_value(m.duration_bits));
    let e = crate::mpris::optional_entry("mpris:artUrl"@, crate::mpris::text_value(m.artwork_url));
    let es = metadata_entries(Some(m));
    assert(es =~= s0 + a + b + c + d + e);
    let s1 = s0 + a;
    let s2 = s1 + b;
    let s3 = s2 + c;
    let s4 = s3 + d;
    assert(es =~= s4 + e);
    assert(es[0] == s0[0]);
    assert(es[1] == s0[1]);
    if m.artist is Some {
        assert(es[2] == a[0]);
    }
    if m.album is Some {
        assert(es[s1.len() as int] == b[0]);
    }
    if m.album_artist is Some {
        assert(es[s2.len() as int] == c[0]);
    }
    if m.duration_bits is Some {
        assert(es[s3.len() as int] == d[0]);
    }
    if m.artwork_url is Some {
        assert(es[s4.len() as int] == e[0]);
    }
    // every key is one of the seven literals, each from its own part
    assert forall|i: int| 0 <= i < es.len() implies {
        ||| (es[i].key == "mpris:trackid"@ || es[i].key == "xesam:title"@)
        ||| (es[i].key == "xesam:artist"@ && m.artist is Some)
        ||| (es[i].key == "xesam:album"@ && m.album is Some)
        ||| (es[i].key == "xesam:albumArtist"@ && m.album_artist is Some)
        ||| (es[i].key == "mpris:length"@ && m.duration_bits is Some)
        ||| (es[i].key == "mpris:artUrl"@ && m.artwork_url is Some)
    } by {
        if i < s4.len() {
            assert(es[i] == s4[i]);
            if i < s3.len() {
                assert(s4[i] == s3[i]);
                if i < s2.len() {
                    assert(s3[i] == s2[i]);
                    if i < s1.len() {
                        assert(s2[i] == s1[i]);
                        if i < 2 {
                            assert(s1[i] == s0[i]);
                        } else {
                            assert(s1[i] == a[i - 2]);
                        }
                    } else {
                        assert(s2[i] == b[i - s1.len()]);
                    }
                } else {
                    assert(s3[i] == c[i - s2.len()]);
                }
            } else {
                assert(s4[i] == d[i - s3.len()]);
            }
        } else {
            assert(es[i] == e[i - s4.len()]);
        }
    }
    assert("mpris:trackid"@.len() == 13);
    assert("xesam:title"@.len() == 11);
    assert("xesam:artist"@.len() == 12);
    assert("xesam:album"@.len() == 11);
    assert("xesam:albumArtist"@.len() == 17);
    assert("mpris:length"@.len() == 12);
    assert("mpris:artUrl"@.len() == 12);
    assert("xesam:album"@[6] != "xesam:title"@[6]);
    assert("mpris:length"@[0] != "xesam:artist"@[0]);
    assert("mpris:artUrl"@[0] != "xesam:artist"@[0]);
    assert("mpris:artUrl"@[6] != "mpris:length"@[6]);
}

/// An artwork file is written only for metadata with artwork bytes and no
/// artwork URL; it is named `mpris_artwork_`, the application id, `.jpg`,
/// and holds those bytes.
pub proof fn lemma_artwork_file(metadata: Option<MediaMetadataView>, app_id: Seq<char>)
    ensures
        artwork_file_of(metadata, app_id) == match metadata {
            Some(m) => if m.artwork_url is None && m.artwork_data is Some {
                Some(("mpris_artwork_"@ + app_id + ".jpg"@, m.artwork_data->0))
            } else {
                None
            },
            None => None,
        },
{
}

/// A session's registration lists the URI schemes `file`, `http`, `https`
/// and the MIME types `audio/mpeg`, `audio/mp4`, `audio/ogg`; it cannot
/// quit, be raised or list tracks, can go next and previous, play, pause,
/// seek and be controlled, and its volume and rate bounds are 1.0.
pub proof fn lemma_registration_constants(c: ControllerView)
    ensures
        registration_of(c).supported_uri_schemes == seq!["file"@, "http"@, "https"@],
        registration_of(c).supported_mime_types == seq!["audio/mpeg"@, "audio/mp4"@, "audio/ogg"@],
        !registration_of(c).capabilities.can_quit,
        !registration_of(c).capabilities.can_raise,
        !registration_of(c).capabilities.has_track_list,
        registration_of(c).capabilities.can_go_next,
        registration_of(c).capabilities.can_go_previous,
        registration_of(c).capabilities.can_play,
        registration_of(c).capabilities.can_pause,
        registration_of(c).capabilities.can_seek,
        registration_of(c).capabilities.can_control,
        registration_of(c).capabilities.volume_bits == 0x3FF0_0000_0000_0000u64,
        registration_of(c).capabilities.minimum_rate_bits == 0x3FF0_0000_0000_0000u64,
        registration_of(c).capabilities.maximum_rate_bits == 0x3FF0_0000_0000_0000u64,
{
}

proof fn lemma_first_other_player(names: Seq<Seq<char>>, app_id: Seq<char>, from: int)
    requires
        0 <= from,
    ensures
        first_other_player(names, app_id, from) matches Some(j) ==> from <= j < names.len()
            && is_other_player(names[j], app_id) && forall|k: int|
            from <= k < j ==> !is_other_player(#[trigger] names[k], app_id),
        first_other_player(names, app_id, from) is None ==> forall|k: int|
            from <= k < names.len() ==> !is_other_player(#[trigger] names[k], app_id),
    decreases names.len() - from,
{
    if from < names.len() {
        lemma_first_other_player(names, app_id, from + 1);
    }
}

/// The lookup from index `from` of a connected session fetches the first
/// other player at or after `from`, and reports the session's own metadata
/// when there is none; an unconnected session reports its own metadata at
/// once.
pub proof fn lemma_lookup_fetches_first_other(c: ControllerView, names: Seq<Seq<char>>, from: int)
    requires
        0 <= from,
    ensures
        !c.connected ==> lookup_from(c, names, from) == MetadataLookupView::Done(c.metadata),
        lookup_from(c, names, from) matches MetadataLookupView::Fetch(j) ==> {
            &&& c.connected
            &&& from <= j < names.len()
            &&& is_other_player(names[j], c.app_id)
            &&& forall|k: int| from <= k < j ==> !is_other_player(#[trigger] names[k], c.app_id)
        },
        lookup_from(c, names, from) matches MetadataLookupView::Done(m) ==> m == c.metadata && (
        c.connected ==> forall|k: int|
            from <= k < names.len() ==> !is_other_player(#[trigger] names[k], c.app_id)),
{
    lemma_first_other_player(names, c.app_id, from);
}

/// After fetching a player's dictionary, the lookup reports what that
/// dictionary gives when it gives metadata, and otherwise goes on exactly as
/// a lookup from the next index.
pub proof fn lemma_lookup_after_fetch(
    c: ControllerView,
    names: Seq<Seq<char>>,
    index: int,
    fetched: Option<Seq<RemoteEntryView>>,
)
    ensures
        fetched is Some && remote_metadata_of(fetched->0) is Some ==> lookup_after_fetch(
            c,
            names,
            index,
            fetched,
        ) == MetadataLookupView::Done(remote_metadata_of(fetched->0)),
        fetched is None ==> lookup_after_fetch(c, names, index, fetched) == lookup_from(
            c,
            names,
            index + 1,
        ),
        fetched is Some && remote_metadata_of(fetched->0) is None ==> lookup_after_fetch(
            c,
            names,
            index,
            fetched,
        ) == lookup_from(c, names, index + 1),
{
}

} // verus!
