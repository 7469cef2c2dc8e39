//! Properties of the session that span its requests.
use vstd::prelude::*;
use crate::controller::{
    lookup_from, reported_metadata, fetched_metadata, ControllerView,
    MetadataLookupView,
};
use crate::models::{MediaMetadataView, PlaybackInfo, PlaybackStatus, ZERO_SECONDS_BITS};
use crate::mpris::{
    status_name, entry, key_title, key_track_id, metadata_entries, player_properties_of, track_path,
    MetadataValueView,
};
use crate::remote::{is_other_player, RemoteEntryView};

verus! {

/// After playback information is stored, it is what is read back: the
/// information itself, its status and its position; nothing else changes.
pub proof fn lemma_playback_read_after_write(c: ControllerView, info: PlaybackInfo)
    ensures
        c.with_playback_info(info).playback_info == Some(info),
        c.with_playback_info(info).status() == info.status,
        c.with_playback_info(info).position_bits() == info.position_bits,
        c.with_playback_info(info).metadata == c.metadata,
        c.with_playback_info(info).connected == c.connected,
        c.with_playback_info(info).app_id == c.app_id,
{
}

/// A status change with stored playback information is read back, and
/// leaves position, rate, shuffle and repeat mode as they were; without
/// stored information it changes nothing, and the status read stays stopped.
pub proof fn lemma_status_change(c: ControllerView, status: PlaybackStatus)
    ensures
        c.playback_info matches Some(i) ==> {
            &&& c.after_status_change(status).status() == status
            &&& c.after_status_change(status).playback_info == Some(
                PlaybackInfo { status, ..i },
            )
        },
        c.playback_info is None ==> c.after_status_change(status) == c
            && c.after_status_change(status).status() == PlaybackStatus::Stopped,
{
}

/// A position change with stored playback information is read back, and
/// leaves status, rate, shuffle and repeat mode as they were; without stored
/// information it changes nothing, and the position read stays 0.
pub proof fn lemma_position_change(c: ControllerView, position_bits: u64)
    ensures
        c.playback_info matches Some(i) ==> {
            &&& c.after_position_change(position_bits).position_bits() == position_bits
            &&& c.after_position_change(position_bits).playback_info == Some(
                PlaybackInfo { position_bits, ..i },
            )
        },
        c.playback_info is None ==> c.after_position_change(position_bits) == c
            && c.after_position_change(position_bits).position_bits() == ZERO_SECONDS_BITS,
{
}

/// A new session reports: stopped, position 0, not enabled, and publishes
/// the default playback properties and an empty metadata dictionary.
pub proof fn lemma_new_session_defaults()
    ensures
        ControllerView::initial().status() == PlaybackStatus::Stopped,
        ControllerView::initial().position_bits() == ZERO_SECONDS_BITS,
        !ControllerView::initial().connected,
        player_properties_of(ControllerView::initial().playback_info) == player_properties_of(None),
        metadata_entries(ControllerView::initial().metadata).len() == 0,
{
}

/// Clearing the metadata undoes setting it, and clearing twice is clearing
/// once.
pub proof fn lemma_clear_undoes_set(c: ControllerView, m: MediaMetadataView)
    ensures
        c.with_metadata(Some(m)).with_metadata(None) == c.with_metadata(None),
        c.with_metadata(None).with_metadata(None) == c.with_metadata(None),
{
}

/// Without a bus connection, what is read back is what was last stored: the
/// lookup reports the stored metadata at once (nothing after clearing),
/// whatever names are given.
pub proof fn lemma_unconnected_read_after_write(
    c: ControllerView,
    m: Option<MediaMetadataView>,
    names: Seq<Seq<char>>,
    fetched: Seq<Option<Seq<RemoteEntryView>>>,
)
    requires
        !c.connected,
    ensures
        lookup_from(c.with_metadata(m), names, 0) == MetadataLookupView::Done(m),
        reported_metadata(c.with_metadata(m), names, fetched, 0) == m,
{
}

proof fn lemma_skip_after(
    c: ControllerView,
    names: Seq<Seq<char>>,
    fetched: Seq<Option<Seq<RemoteEntryView>>>,
    k: int,
    from: int,
)
    requires
        fetched.len() == names.len(),
        0 <= k < from,
        k < names.len(),
    ensures
        reported_metadata(c, names, fetched, from) == reported_metadata(
            c,
            names.remove(k),
            fetched.remove(k),
            from - 1,
        ),
    decreases names.len() - from,
{
    assert(names.remove(k).len() == names.len() - 1);
    assert(fetched.remove(k).len() == fetched.len() - 1);
    if from < names.len() {
        assert(names.remove(k)[from - 1] == names[from]);
        assert(fetched.remove(k)[from - 1] == fetched[from]);
        lemma_skip_after(c, names, fetched, k, from + 1);
    }
}

proof fn lemma_skip_before(
    c: ControllerView,
    names: Seq<Seq<char>>,
    fetched: Seq<Option<Seq<RemoteEntryView>>>,
    k: int,
    from: int,
)
    requires
        fetched.len() == names.len(),
        0 <= from <= k < names.len(),
        !is_other_player(names[k], c.app_id) || fetched_metadata(fetched[k]) is None,
    ensures
        reported_metadata(c, names, fetched, from) == reported_metadata(
            c,
            names.remove(k),
            fetched.remove(k),
            from,
        ),
    decreases k - from,
{
    assert(names.remove(k).len() == names.len() - 1);
    assert(fetched.remove(k).len() == fetched.len() - 1);
    if from == k {
        lemma_skip_after(c, names, fetched, k, k + 1);
    } else {
        assert(names.remove(k)[from] == names[from]);
        assert(fetched.remove(k)[from] == fetched[from]);
        lemma_skip_before(c, names, fetched, k, from + 1);
    }
}

/// A player that is skipped (a name that is not another player's, or one
/// whose fetched dictionary gives no metadata) does not matter: removing it
/// from the names (and what was fetched for it) leaves the reported
/// metadata unchanged.
pub proof fn lemma_skipped_player_irrelevant(
    c: ControllerView,
    names: Seq<Seq<char>>,
    fetched: Seq<Option<Seq<RemoteEntryView>>>,
    k: int,
)
    requires
        fetched.len() == names.len(),
        0 <= k < names.len(),
        !is_other_player(names[k], c.app_id) || fetched_metadata(fetched[k]) is None,
    ensures
        reported_metadata(c, names, fetched, 0) == reported_metadata(
            c,
            names.remove(k),
            fetched.remove(k),
            0,
        ),
{
    lemma_skip_before(c, names, fetched, k, 0);
}

/// Published metadata always begins with the track id and the title; with
/// no metadata the dictionary is empty.
pub proof fn lemma_metadata_dict_shape(metadata: Option<MediaMetadataView>)
    ensures
        metadata is None <==> metadata_entries(metadata).len() == 0,
        metadata matches Some(m) ==> {
            &&& metadata_entries(metadata).len() >= 2
            &&& metadata_entries(metadata)[0] == entry(
                key_track_id(),
                MetadataValueView::Text(track_path()),
            )
            &&& metadata_entries(metadata)[1] == entry(key_title(), MetadataValueView::Text(m.title))
        },
{
}

/// The lookup steps compute the reported metadata: a step that reports
/// reports [`reported_metadata`]; a step that fetches names another player
/// (never the session's own application), and the reported metadata is what
/// that player gives, or else what the lookup after it reports.
pub proof fn lemma_lookup_steps_report(
    c: ControllerView,
    names: Seq<Seq<char>>,
    fetched: Seq<Option<Seq<RemoteEntryView>>>,
    from: int,
)
    requires
        0 <= from,
        fetched.len() == names.len(),
    ensures
        lookup_from(c, names, from) matches MetadataLookupView::Done(m) ==> m == reported_metadata(
            c,
            names,
            fetched,
            from,
        ),
        lookup_from(c, names, from) matches MetadataLookupView::Fetch(j) ==> {
            &&& from <= j < names.len()
            &&& is_other_player(names[j], c.app_id)
            &&& reported_metadata(c, names, fetched, from) == match fetched_metadata(fetched[j]) {
                Some(m) => Some(m),
                None => reported_metadata(c, names, fetched, j + 1),
            }
        },
    decreases names.len() - from,
{
    if from < names.len() {
        if !is_other_player(names[from], c.app_id) {
            lemma_lookup_steps_report(c, names, fetched, from + 1);
        }
    }
}

/// What is read back of stored metadata: when no other player on the bus
/// gives metadata, the reported metadata is the session's own (so what was
/// last set, or nothing after clearing).
pub proof fn lemma_metadata_read_after_write(
    c: ControllerView,
    m: Option<MediaMetadataView>,
    names: Seq<Seq<char>>,
    fetched: Seq<Option<Seq<RemoteEntryView>>>,
)
    requires
        fetched.len() == names.len(),
        forall|j: int|
            0 <= j < names.len() && is_other_player(names[j], c.app_id) ==> fetched_metadata(
                #[trigger] fetched[j],
            ) is None,
    ensures
        reported_metadata(c.with_metadata(m), names, fetched, 0) == m,
{
    lemma_reported_falls_back(c.with_metadata(m), names, fetched, 0);
}

proof fn lemma_reported_falls_back(
    c: ControllerView,
    names: Seq<Seq<char>>,
    fetched: Seq<Option<Seq<RemoteEntryView>>>,
    from: int,
)
    requires
        0 <= from,
        fetched.len() == names.len(),
        forall|j: int|
            0 <= j < names.len() && is_other_player(names[j], c.app_id) ==> fetched_metadata(
                #[trigger] fetched[j],
            ) is None,
    ensures
        reported_metadata(c, names, fetched, from) == c.metadata,
    decreases names.len() - from,
{
    if from < names.len() {
        lemma_reported_falls_back(c, names, fetched, from + 1);
    }
}

/// What the session publishes on the bus agrees with what it reports: the
/// published status is the name of the reported status, and the published
/// position is the reported position.
pub proof fn lemma_published_matches_reported(c: ControllerView)
    ensures
        player_properties_of(c.playback_info).playback_status == status_name(c.status()),
        player_properties_of(c.playback_info).position_bits == c.position_bits(),
{
    reveal_strlit("Stopped");
}

} // verus!
