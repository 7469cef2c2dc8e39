//! What the session publishes on the MPRIS interfaces: property values,
//! the metadata dictionary and the bus registration.
use vstd::prelude::*;
use vstd::string::*;
use crate::models::{
    opt_metadata, MediaMetadata, MediaMetadataView, PlaybackInfo, PlaybackStatus, RepeatMode,
    UNIT_RATE_BITS, ZERO_SECONDS_BITS, copy_bytes,
};

verus! {

/// The MPRIS `PlaybackStatus` value of a status.
pub open spec fn status_name(status: PlaybackStatus) -> Seq<char> {
    match status {
        PlaybackStatus::Playing => "Playing"@,
        PlaybackStatus::Paused => "Paused"@,
        PlaybackStatus::Stopped => "Stopped"@,
    }
}

/// The MPRIS `LoopStatus` value of a repeat mode.
pub open spec fn loop_name(mode: RepeatMode) -> Seq<char> {
    match mode {
        RepeatMode::NoRepeat => "None"@,
        RepeatMode::Track => "Track"@,
        RepeatMode::List => "Playlist"@,
    }
}

/// The MPRIS `PlaybackStatus` value of `status`.
pub fn playback_status_name(status: PlaybackStatus) -> (r: String)
    ensures
        r@ == status_name(status),
{
    match status {
        PlaybackStatus::Playing => String::from_str("Playing"),
        PlaybackStatus::Paused => String::from_str("Paused"),
        PlaybackStatus::Stopped => String::from_str("Stopped"),
    }
}

/// The MPRIS `LoopStatus` value of `mode`.
pub fn loop_status_name(mode: RepeatMode) -> (r: String)
    ensures
        r@ == loop_name(mode),
{
    match mode {
        RepeatMode::NoRepeat => String::from_str("None"),
        RepeatMode::Track => String::from_str("Track"),
        RepeatMode::List => String::from_str("Playlist"),
    }
}

/// Distinct statuses have distinct MPRIS names.
pub proof fn lemma_status_names_distinct(a: PlaybackStatus, b: PlaybackStatus)
    requires
        a != b,
    ensures
        status_name(a) != status_name(b),
{
    reveal_strlit("Playing");
    reveal_strlit("Paused");
    reveal_strlit("Stopped");
    assert("Playing"@[1] != "Paused"@[1]);
    assert("Playing"@[0] != "Stopped"@[0]);
    assert("Paused"@[0] != "Stopped"@[0]);
}

/// Distinct repeat modes have distinct MPRIS loop names.
pub proof fn lemma_loop_names_distinct(a: RepeatMode, b: RepeatMode)
    requires
        a != b,
    ensures
        loop_name(a) != loop_name(b),
{
    reveal_strlit("None");
    reveal_strlit("Track");
    reveal_strlit("Playlist");
    assert("None"@[0] != "Track"@[0]);
    assert("None"@[0] != "Playlist"@[0]);
    assert("Track"@[0] != "Playlist"@[0]);
}

/// The values of the MPRIS player properties that describe playback.
pub struct PlayerProperties {
    /// `PlaybackStatus`.
    pub playback_status: String,
    /// `LoopStatus`.
    pub loop_status: String,
    /// `Rate`, as `f64` bits.
    pub rate_bits: u64,
    /// `Shuffle`.
    pub shuffle: bool,
    /// `Position` in seconds, as `f64` bits (MPRIS wants microseconds; the
    /// caller multiplies by one million).
    pub position_bits: u64,
}

/// The mathematical value of [`PlayerProperties`].
pub struct PlayerPropertiesView {
    pub playback_status: Seq<char>,
    pub loop_status: Seq<char>,
    pub rate_bits: u64,
    pub shuffle: bool,
    pub position_bits: u64,
}

impl View for PlayerProperties {
    type V = PlayerPropertiesView;

    open spec fn view(&self) -> PlayerPropertiesView {
        PlayerPropertiesView {
            playback_status: self.playback_status@,
            loop_status: self.loop_status@,
            rate_bits: self.rate_bits,
            shuffle: self.shuffle,
            position_bits: self.position_bits,
        }
    }
}

/// The player properties published for `info`: its values when there is
/// playback information, and otherwise stopped, no repeat, rate 1.0, no
/// shuffle, position 0.
pub open spec fn player_properties_of(info: Option<PlaybackInfo>) -> PlayerPropertiesView {
    match info {
        Some(i) => PlayerPropertiesView {
            playback_status: status_name(i.status),
            loop_status: loop_name(i.repeat_mode),
            rate_bits: i.playback_rate_bits,
            shuffle: i.shuffle,
            position_bits: i.position_bits,
        },
        None => PlayerPropertiesView {
            playback_status: "Stopped"@,
            loop_status: "None"@,
            rate_bits: UNIT_RATE_BITS,
            shuffle: false,
            position_bits: ZERO_SECONDS_BITS,
        },
    }
}

/// The player properties published for `info`.
pub fn player_properties(info: &Option<PlaybackInfo>) -> (r: PlayerProperties)
    ensures
        r@ == player_properties_of(*info),
{
    match info {
        Some(i) => PlayerProperties {
            playback_status: playback_status_name(i.status),
            loop_status: loop_status_name(i.repeat_mode),
            rate_bits: i.playback_rate_bits,
            shuffle: i.shuffle,
            position_bits: i.position_bits,
        },
        None => PlayerProperties {
            playback_status: String::from_str("Stopped"),
            loop_status: String::from_str("None"),
            rate_bits: UNIT_RATE_BITS,
            shuffle: false,
            position_bits: ZERO_SECONDS_BITS,
        },
    }
}

/// A value in the MPRIS metadata dictionary.
pub enum MetadataValue {
    /// A string.
    Text(String),
    /// An array of strings.
    TextList(Vec<String>),
    /// A length in seconds, as `f64` bits (MPRIS wants microseconds as a
    /// 64-bit integer; the caller multiplies by one million).
    LengthSeconds(u64),
}

/// The mathematical value of a [`MetadataValue`].
pub enum MetadataValueView {
    Text(Seq<char>),
    TextList(Seq<Seq<char>>),
    LengthSeconds(u64),
}

impl View for MetadataValue {
    type V = MetadataValueView;

    open spec fn view(&self) -> MetadataValueView {
        match self {
            MetadataValue::Text(s) => MetadataValueView::Text(s@),
            MetadataValue::TextList(l) => MetadataValueView::TextList(
                l@.map_values(|s: String| s@),
            ),
            MetadataValue::LengthSeconds(b) => MetadataValueView::LengthSeconds(*b),
        }
    }
}

/// One key of the MPRIS metadata dictionary with its value.
pub struct MetadataEntry {
    pub key: String,
    pub value: MetadataValue,
}

/// The mathematical value of a [`MetadataEntry`].
pub struct MetadataEntryView {
    pub key: Seq<char>,
    pub value: MetadataValueView,
}

impl View for MetadataEntry {
    type V = MetadataEntryView;

    open spec fn view(&self) -> MetadataEntryView {
        MetadataEntryView { key: self.key@, value: self.value@ }
    }
}

/// Artwork bytes that are published through a file: the caller writes
/// `data` to `file_name` in its temporary directory and, once written,
/// publishes the file's URL with [`MetadataDict::add_artwork_url`].
pub struct ArtworkFile {
    pub file_name: String,
    pub data: Vec<u8>,
}

/// The MPRIS `Metadata` dictionary, as entries in insertion order, and the
/// artwork file that still has to be written, if any.
pub struct MetadataDict {
    pub entries: Vec<MetadataEntry>,
    pub artwork_file: Option<ArtworkFile>,
}

/// The mathematical value of a [`MetadataDict`].
pub struct MetadataDictView {
    pub entries: Seq<MetadataEntryView>,
    /// The file name and the bytes of the artwork file to write.
    pub artwork_file: Option<(Seq<char>, Seq<u8>)>,
}

impl View for MetadataDict {
    type V = MetadataDictView;

    open spec fn view(&self) -> MetadataDictView {
        MetadataDictView {
            entries: self.entries@.map_values(|e: MetadataEntry| e@),
            artwork_file: match self.artwork_file {
                Some(f) => Some((f.file_name@, f.data@)),
                None => None,
            },
        }
    }
}

pub open spec fn key_track_id() -> Seq<char> {
    "mpris:trackid"@
}

pub open spec fn key_title() -> Seq<char> {
    "xesam:title"@
}

pub open spec fn key_artist() -> Seq<char> {
    "xesam:artist"@
}

pub open spec fn key_album() -> Seq<char> {
    "xesam:album"@
}

pub open spec fn key_album_artist() -> Seq<char> {
    "xesam:albumArtist"@
}

pub open spec fn key_length() -> Seq<char> {
    "mpris:length"@
}

pub open spec fn key_art_url() -> Seq<char> {
    "mpris:artUrl"@
}

/// The track id that the session publishes for its one track.
pub open spec fn track_path() -> Seq<char> {
    "/org/mpris/MediaPlayer2/Track/1"@
}

/// An entry of the dictionary.
pub open spec fn entry(key: Seq<char>, value: MetadataValueView) -> MetadataEntryView {
    MetadataEntryView { key, value }
}

/// One entry when `value` is present, none otherwise.
pub open spec fn optional_entry(key: Seq<char>, value: Option<MetadataValueView>) -> Seq<
    MetadataEntryView,
> {
    match value {
        Some(v) => seq![entry(key, v)],
        None => Seq::empty(),
    }
}

pub open spec fn text_value(o: Option<Seq<char>>) -> Option<MetadataValueView> {
    match o {
        Some(s) => Some(MetadataValueView::Text(s)),
        None => None,
    }
}

pub open spec fn singleton_list_value(o: Option<Seq<char>>) -> Option<MetadataValueView> {
    match o {
        Some(s) => Some(MetadataValueView::TextList(seq![s])),
        None => None,
    }
}

pub open spec fn length_value(o: Option<u64>) -> Option<MetadataValueView> {
    match o {
        Some(b) => Some(MetadataValueView::LengthSeconds(b)),
        None => None,
    }
}

/// The entries of the metadata dictionary, in the order they are inserted:
/// none without metadata; otherwise the track id and the title, then the
/// artist (as a one-element list), the album, the album artist (as a
/// one-element list), the length, and the artwork URL, each where present.
pub open spec fn metadata_entries(metadata: Option<MediaMetadataView>) -> Seq<MetadataEntryView> {
    match metadata {
        None => Seq::empty(),
        Some(m) => seq![
            entry(key_track_id(), MetadataValueView::Text(track_path())),
            entry(key_title(), MetadataValueView::Text(m.title)),
        ] + optional_entry(key_artist(), singleton_list_value(m.artist)) + optional_entry(
            key_album(),
            text_value(m.album),
        ) + optional_entry(key_album_artist(), singleton_list_value(m.album_artist))
            + optional_entry(key_length(), length_value(m.duration_bits)) + optional_entry(
            key_art_url(),
            text_value(m.artwork_url),
        ),
    }
}

/// The name of the file that holds the session's artwork.
pub open spec fn artwork_file_name(app_id: Seq<char>) -> Seq<char> {
    "mpris_artwork_"@ + app_id + ".jpg"@
}

/// The artwork file to write: only when there is metadata with artwork bytes
/// and no artwork URL.
pub open spec fn artwork_file_of(metadata: Option<MediaMetadataView>, app_id: Seq<char>) -> Option<
    (Seq<char>, Seq<u8>),
> {
    match metadata {
        Some(m) => match (m.artwork_url, m.artwork_data) {
            (None, Some(d)) => Some((artwork_file_name(app_id), d)),
            _ => None,
        },
        None => None,
    }
}

/// The metadata dictionary of `metadata` for the application `app_id`.
pub open spec fn metadata_dict_of(metadata: Option<MediaMetadataView>, app_id: Seq<char>) -> MetadataDictView {
    MetadataDictView {
        entries: metadata_entries(metadata),
        artwork_file: artwork_file_of(metadata, app_id),
    }
}

/// The URL under which a written artwork file at `path` is published.
pub open spec fn file_url(path: Seq<char>) -> Seq<char> {
    "file://"@ + path
}

/// A one-element list holding a copy of `s`.
fn singleton_list(s: &String) -> (r: Vec<String>)
    ensures
        r@.map_values(|x: String| x@) == seq![s@],
{
    let mut r: Vec<String> = Vec::new();
    r.push(s.clone());
    assert(r@.map_values(|x: String| x@) =~= seq![s@]);
    r
}

impl MetadataDict {
    /// The empty dictionary.
    pub fn empty() -> (d: MetadataDict)
        ensures
            d@ == metadata_dict_of(None, Seq::empty()),
    {
        let d = MetadataDict { entries: Vec::new(), artwork_file: None };
        assert(d@.entries =~= Seq::<MetadataEntryView>::empty());
        d
    }

    /// Appends `entry`.
    fn push_entry(&mut self, key: String, value: MetadataValue)
        ensures
            final(self)@.entries == old(self)@.entries.push(entry(key@, value@)),
            final(self)@.artwork_file == old(self)@.artwork_file,
    {
        let ghost before = self.entries@;
        self.entries.push(MetadataEntry { key, value });
        assert(self.entries@.map_values(|e: MetadataEntry| e@) =~= before.map_values(
            |e: MetadataEntry| e@,
        ).push(entry(key@, value@)));
    }

    /// Publishes the artwork file written at `path`: appends the artwork URL
    /// `file://` followed by `path`.
    pub fn add_artwork_url(&mut self, path: &str)
        ensures
            final(self)@.entries == old(self)@.entries.push(
                entry(key_art_url(), MetadataValueView::Text(file_url(path@))),
            ),
            final(self)@.artwork_file == old(self)@.artwork_file,
    {
        let mut url = String::from_str("file://");
        url.append(path);
        self.push_entry(String::from_str("mpris:artUrl"), MetadataValue::Text(url));
    }
}

/// The metadata dictionary that the session publishes for `metadata`.
#[verifier::rlimit(40)]
pub fn metadata_dict(metadata: &Option<MediaMetadata>, app_id: &String) -> (d: MetadataDict)
    ensures
        d@ == metadata_dict_of(opt_metadata(*metadata), app_id@),
{
    match metadata {
        None => MetadataDict::empty(),
        Some(m) => {
            let mut d = MetadataDict { entries: Vec::new(), artwork_file: None };
            assert(d@.entries =~= Seq::<MetadataEntryView>::empty());
            d.push_entry(
                String::from_str("mpris:trackid"),
                MetadataValue::Text(String::from_str("/org/mpris/MediaPlayer2/Track/1")),
            );
            d.push_entry(String::from_str("xesam:title"), MetadataValue::Text(m.title.clone()));
            let ghost base = d@.entries;
            if let Some(artist) = &m.artist {
                d.push_entry(
                    String::from_str("xesam:artist"),
                    MetadataValue::TextList(singleton_list(artist)),
                );
            }
            assert(d@.entries =~= base + optional_entry(key_artist(), singleton_list_value(opt_text_of(&m.artist))));
            let ghost base = d@.entries;
            if let Some(album) = &m.album {
                d.push_entry(String::from_str("xesam:album"), MetadataValue::Text(album.clone()));
            }
            assert(d@.entries =~= base + optional_entry(key_album(), text_value(opt_text_of(&m.album))));
            let ghost base = d@.entries;
            if let Some(album_artist) = &m.album_artist {
                d.push_entry(
                    String::from_str("xesam:albumArtist"),
                    MetadataValue::TextList(singleton_list(album_artist)),
                );
            }
            assert(d@.entries =~= base + optional_entry(key_album_artist(), singleton_list_value(opt_text_of(&m.album_artist))));
            let ghost base = d@.entries;
            if let Some(duration) = m.duration_bits {
                d.push_entry(String::from_str("mpris:length"), MetadataValue::LengthSeconds(duration));
            }
            assert(d@.entries =~= base + optional_entry(key_length(), length_value(m.duration_bits)));
            let ghost base = d@.entries;
            if let Some(url) = &m.artwork_url {
                d.push_entry(String::from_str("mpris:artUrl"), MetadataValue::Text(url.clone()));
            } else if let Some(data) = &m.artwork_data {
                let mut name = String::from_str("mpris_artwork_");
                name.append(app_id.as_str());
                name.append(".jpg");
                d.artwork_file = Some(ArtworkFile { file_name: name, data: copy_bytes(data) });
            }
            assert(d@.entries =~= base + optional_entry(key_art_url(), text_value(opt_text_of(&m.artwork_url))));
            assert(d@.entries =~= metadata_entries(opt_metadata(*metadata)));
            d
        },
    }
}

/// The view of an optional string behind a reference.
pub open spec fn opt_text_of(o: &Option<String>) -> Option<Seq<char>> {
    crate::models::opt_text(*o)
}

/// The position of a metadata key in the order of insertion.
spec fn key_rank(k: Seq<char>) -> int {
    if k == key_track_id() {
        0
    } else if k == key_title() {
        1
    } else if k == key_artist() {
        2
    } else if k == key_album() {
        3
    } else if k == key_album_artist() {
        4
    } else if k == key_length() {
        5
    } else {
        6
    }
}

/// The keys of `es` strictly increase in rank.
spec fn ranks_increase(es: Seq<MetadataEntryView>) -> bool {
    forall|i: int, j: int|
        0 <= i < j < es.len() ==> key_rank(#[trigger] es[i].key) < key_rank(#[trigger] es[j].key)
}

proof fn lemma_key_ranks()
    ensures
        key_rank(key_track_id()) == 0,
        key_rank(key_title()) == 1,
        key_rank(key_artist()) == 2,
        key_rank(key_album()) == 3,
        key_rank(key_album_artist()) == 4,
        key_rank(key_length()) == 5,
        key_rank(key_art_url()) == 6,
{
    reveal_strlit("mpris:trackid");
    reveal_strlit("xesam:title");
    reveal_strlit("xesam:artist");
    reveal_strlit("xesam:album");
    reveal_strlit("xesam:albumArtist");
    reveal_strlit("mpris:length");
    reveal_strlit("mpris:artUrl");
    assert(key_track_id().len() == 13);
    assert(key_title().len() == 11);
    assert(key_artist().len() == 12);
    assert(key_album().len() == 11);
    assert(key_album_artist().len() == 17);
    assert(key_length().len() == 12);
    assert(key_art_url().len() == 12);
    assert(key_album()[6] != key_title()[6]);
    assert(key_length()[0] != key_artist()[0]);
    assert(key_art_url()[0] != key_artist()[0]);
    assert(key_art_url()[6] != key_length()[6]);
}

proof fn lemma_append_optional(es: Seq<MetadataEntryView>, k: Seq<char>, v: Option<MetadataValueView>)
    requires
        ranks_increase(es),
        forall|i: int| 0 <= i < es.len() ==> key_rank(#[trigger] es[i].key) < key_rank(k),
    ensures
        ranks_increase(es + optional_entry(k, v)),
        forall|i: int|
            0 <= i < (es + optional_entry(k, v)).len() ==> key_rank(
                #[trigger] (es + optional_entry(k, v))[i].key,
            ) <= key_rank(k),
{
    let r = es + optional_entry(k, v);
    assert forall|i: int, j: int| 0 <= i < j < r.len() implies key_rank(#[trigger] r[i].key)
        < key_rank(#[trigger] r[j].key) by {
        if j < es.len() {
            assert(r[i] == es[i] && r[j] == es[j]);
        } else {
            assert(r[i] == es[i]);
        }
    }
    assert forall|i: int| 0 <= i < r.len() implies key_rank(#[trigger] r[i].key) <= key_rank(k) by {
        if i < es.len() {
            assert(r[i] == es[i]);
        }
    }
}

/// No key occurs twice in the metadata dictionary.
pub proof fn lemma_metadata_keys_distinct(metadata: Option<MediaMetadataView>)
    ensures
        forall|i: int, j: int|
            0 <= i < j < metadata_entries(metadata).len() ==> (#[trigger] metadata_entries(
                metadata,
            )[i]).key != (#[trigger] metadata_entries(metadata)[j]).key,
{
    lemma_key_ranks();
    if let Some(m) = metadata {
        let s0 = seq![
            entry(key_track_id(), MetadataValueView::Text(track_path())),
            entry(key_title(), MetadataValueView::Text(m.title)),
        ];
        assert(ranks_increase(s0));
        let s1 = s0 + optional_entry(key_artist(), singleton_list_value(m.artist));
        lemma_append_optional(s0, key_artist(), singleton_list_value(m.artist));
        let s2 = s1 + optional_entry(key_album(), text_value(m.album));
        lemma_append_optional(s1, key_album(), text_value(m.album));
        let s3 = s2 + optional_entry(key_album_artist(), singleton_list_value(m.album_artist));
        lemma_append_optional(s2, key_album_artist(), singleton_list_value(m.album_artist));
        let s4 = s3 + optional_entry(key_length(), length_value(m.duration_bits));
        lemma_append_optional(s3, key_length(), length_value(m.duration_bits));
        lemma_append_optional(s4, key_art_url(), text_value(m.artwork_url));
        let es = metadata_entries(metadata);
        assert forall|i: int, j: int| 0 <= i < j < es.len() implies (#[trigger] es[i]).key
            != (#[trigger] es[j]).key by {
            assert(key_rank(es[i].key) < key_rank(es[j].key));
        }
    }
}

} // verus!
