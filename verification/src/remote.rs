//! Reading what other MPRIS players on the bus publish.
use vstd::prelude::*;
use vstd::string::*;
use crate::models::{opt_metadata, opt_text, MediaMetadata, MediaMetadataView};
use crate::mpris::{key_album, key_art_url, key_artist, key_title};
use crate::text::{contains, contains_seq, has_prefix, starts_with};

verus! {

/// A value of another player's metadata dictionary, as far as the session
/// reads it.
pub enum MetadataField {
    /// A string value.
    Text(String),
    /// An array value; each element is `Some` text where it is a string.
    List(Vec<Option<String>>),
    /// Any other value.
    Other,
}

/// The mathematical value of a [`MetadataField`].
pub enum MetadataFieldView {
    Text(Seq<char>),
    List(Seq<Option<Seq<char>>>),
    Other,
}

impl View for MetadataField {
    type V = MetadataFieldView;

    open spec fn view(&self) -> MetadataFieldView {
        match self {
            MetadataField::Text(s) => MetadataFieldView::Text(s@),
            MetadataField::List(l) => MetadataFieldView::List(
                l@.map_values(|o: Option<String>| opt_text(o)),
            ),
            MetadataField::Other => MetadataFieldView::Other,
        }
    }
}

/// One entry of another player's metadata dictionary; the key is `Some`
/// where it is a string.
pub struct RemoteEntry {
    pub key: Option<String>,
    pub value: MetadataField,
}

/// The mathematical value of a [`RemoteEntry`].
pub struct RemoteEntryView {
    pub key: Option<Seq<char>>,
    pub value: MetadataFieldView,
}

impl View for RemoteEntry {
    type V = RemoteEntryView;

    open spec fn view(&self) -> RemoteEntryView {
        RemoteEntryView { key: opt_text(self.key), value: self.value@ }
    }
}

/// The views of a vector of entries.
pub open spec fn entries_view(es: Seq<RemoteEntry>) -> Seq<RemoteEntryView> {
    es.map_values(|e: RemoteEntry| e@)
}

/// The text that a field gives: a string value as it stands, or, with
/// `first_of_list`, the first element of an array where that is a string.
pub open spec fn field_text(f: MetadataFieldView, first_of_list: bool) -> Option<Seq<char>> {
    if first_of_list {
        match f {
            MetadataFieldView::List(l) => if l.len() > 0 {
                l[0]
            } else {
                None
            },
            _ => None,
        }
    } else {
        match f {
            MetadataFieldView::Text(s) => Some(s),
            _ => None,
        }
    }
}

/// The text of the last entry under `key` that gives one (see
/// [`field_text`]); later entries override earlier ones.
pub open spec fn last_text(es: Seq<RemoteEntryView>, key: Seq<char>, first_of_list: bool) -> Option<
    Seq<char>,
>
    decreases es.len(),
{
    if es.len() == 0 {
        None
    } else {
        let e = es.last();
        if e.key == Some(key) && field_text(e.value, first_of_list) is Some {
            field_text(e.value, first_of_list)
        } else {
            last_text(es.drop_last(), key, first_of_list)
        }
    }
}

/// The title used for a player that publishes an artist but no title.
pub open spec fn unknown_title() -> Seq<char> {
    "Unknown"@
}

/// The metadata read from another player's dictionary: present when it gives
/// a title or an artist; the title then defaults to "Unknown", the album and
/// the artwork URL are taken where given, and nothing else is read.
pub open spec fn remote_metadata_of(es: Seq<RemoteEntryView>) -> Option<MediaMetadataView> {
    let title = last_text(es, key_title(), false);
    let artist = last_text(es, key_artist(), true);
    if title is Some || artist is Some {
        Some(
            MediaMetadataView {
                title: match title {
                    Some(t) => t,
                    None => unknown_title(),
                },
                artist,
                album: last_text(es, key_album(), false),
                album_artist: None,
                artwork_url: last_text(es, key_art_url(), false),
                artwork_data: None,
                duration_bits: None,
            },
        )
    } else {
        None
    }
}

proof fn lemma_last_text_step(es: Seq<RemoteEntryView>, i: int, key: Seq<char>, first_of_list: bool)
    requires
        0 <= i < es.len(),
    ensures
        last_text(es.take(i + 1), key, first_of_list) == (if es[i].key == Some(key) && field_text(
            es[i].value,
            first_of_list,
        ) is Some {
            field_text(es[i].value, first_of_list)
        } else {
            last_text(es.take(i), key, first_of_list)
        }),
{
    assert(es.take(i + 1).drop_last() =~= es.take(i));
    assert(es.take(i + 1).last() == es[i]);
}

/// The text that `field` gives (see [`field_text`]).
fn text_of_field(field: &MetadataField, first_of_list: bool) -> (r: Option<String>)
    ensures
        opt_text(r) == field_text(field@, first_of_list),
{
    if first_of_list {
        match field {
            MetadataField::List(l) => {
                if l.len() > 0 {
                    let r = crate::models::copy_opt_text(&l[0]);
                    assert(field@ == MetadataFieldView::List(
                        l@.map_values(|o: Option<String>| opt_text(o)),
                    ));
                    r
                } else {
                    None
                }
            },
            _ => None,
        }
    } else {
        match field {
            MetadataField::Text(s) => Some(s.clone()),
            _ => None,
        }
    }
}

/// The metadata read from another player's dictionary `entries`.
pub fn remote_metadata(entries: &Vec<RemoteEntry>) -> (r: Option<MediaMetadata>)
    ensures
        opt_metadata(r) == remote_metadata_of(entries_view(entries@)),
{
    let ghost es = entries_view(entries@);
    let k_title = String::from_str("xesam:title");
    let k_artist = String::from_str("xesam:artist");
    let k_album = String::from_str("xesam:album");
    let k_art = String::from_str("mpris:artUrl");
    let mut title: Option<String> = None;
    let mut artist: Option<String> = None;
    let mut album: Option<String> = None;
    let mut art: Option<String> = None;
    let mut i: usize = 0;
    while i < entries.len()
        invariant
            es == entries_view(entries@),
            i <= entries.len(),
            k_title@ == key_title(),
            k_artist@ == key_artist(),
            k_album@ == key_album(),
            k_art@ == key_art_url(),
            opt_text(title) == last_text(es.take(i as int), key_title(), false),
            opt_text(artist) == last_text(es.take(i as int), key_artist(), true),
            opt_text(album) == last_text(es.take(i as int), key_album(), false),
            opt_text(art) == last_text(es.take(i as int), key_art_url(), false),
        decreases entries.len() - i,
    {
        let e = &entries[i];
        assert(es[i as int] == e@);
        proof {
            lemma_last_text_step(es, i as int, key_title(), false);
            lemma_last_text_step(es, i as int, key_artist(), true);
            lemma_last_text_step(es, i as int, key_album(), false);
            lemma_last_text_step(es, i as int, key_art_url(), false);
        }
        if let Some(k) = &e.key {
            if *k == k_title {
                let v = text_of_field(&e.value, false);
                if v.is_some() {
                    title = v;
                }
            }
            if *k == k_artist {
                let v = text_of_field(&e.value, true);
                if v.is_some() {
                    artist = v;
                }
            }
            if *k == k_album {
                let v = text_of_field(&e.value, false);
                if v.is_some() {
                    album = v;
                }
            }
            if *k == k_art {
                let v = text_of_field(&e.value, false);
                if v.is_some() {
                    art = v;
                }
            }
        }
        i = i + 1;
    }
    assert(es.take(entries.len() as int) =~= es);
    if title.is_some() || artist.is_some() {
        let t = match title {
            Some(t) => t,
            None => String::from_str("Unknown"),
        };
        Some(
            MediaMetadata {
                title: t,
                artist,
                album,
                album_artist: None,
                artwork_url: art,
                artwork_data: None,
                duration_bits: None,
            },
        )
    } else {
        None
    }
}

/// The prefix of every MPRIS player's bus name.
pub open spec fn player_prefix() -> Seq<char> {
    "org.mpris.MediaPlayer2."@
}

/// `name` is the bus name of an MPRIS player other than the application
/// `app_id`: it starts with the MPRIS prefix and does not contain `app_id`
/// anywhere (so with an empty `app_id` no name qualifies).
pub open spec fn is_other_player(name: Seq<char>, app_id: Seq<char>) -> bool {
    has_prefix(name, player_prefix()) && !contains_seq(name, app_id)
}

/// Whether `name` is the bus name of an MPRIS player other than `app_id`.
pub fn is_other_player_name(name: &str, app_id: &str) -> (b: bool)
    ensures
        b == is_other_player(name@, app_id@),
{
    starts_with(name, "org.mpris.MediaPlayer2.") && !contains(name, app_id)
}

} // verus!
