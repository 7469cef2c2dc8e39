//! The media session controller: its state, what each request does to it,
//! and what it asks its caller to publish on the bus.
use vstd::prelude::*;
use vstd::string::*;
use crate::models::{
    copy_opt_metadata, opt_metadata, MediaMetadata, MediaMetadataView, PlaybackInfo,
    PlaybackStatus, UNIT_RATE_BITS, ZERO_SECONDS_BITS,
};
use crate::mpris::{
    metadata_dict, metadata_dict_of, player_properties, player_properties_of, MetadataDict,
    MetadataDictView, PlayerProperties, PlayerPropertiesView,
};
use crate::remote::{
    entries_view, is_other_player, is_other_player_name, player_prefix, remote_metadata,
    remote_metadata_of, RemoteEntry, RemoteEntryView,
};

verus! {

/// A media session on the MPRIS bus interface.
///
/// It holds what is playing and how, the application's id and name, and
/// whether a bus connection has been established. The bus work itself (the
/// connection, the exported object, sending signals, querying other players)
/// is the caller's: each request returns what the caller is to publish.
pub struct LinuxMediaController {
    metadata: Option<MediaMetadata>,
    playback_info: Option<PlaybackInfo>,
    app_id: String,
    app_name: String,
    connected: bool,
}

/// The mathematical value of a [`LinuxMediaController`].
pub struct ControllerView {
    pub metadata: Option<MediaMetadataView>,
    pub playback_info: Option<PlaybackInfo>,
    pub app_id: Seq<char>,
    pub app_name: Seq<char>,
    pub connected: bool,
}

impl View for LinuxMediaController {
    type V = ControllerView;

    closed spec fn view(&self) -> ControllerView {
        ControllerView {
            metadata: opt_metadata(self.metadata),
            playback_info: self.playback_info,
            app_id: self.app_id@,
            app_name: self.app_name@,
            connected: self.connected,
        }
    }
}

impl ControllerView {
    /// A new controller: nothing playing, no application, not connected.
    pub open spec fn initial() -> ControllerView {
        ControllerView {
            metadata: None,
            playback_info: None,
            app_id: Seq::empty(),
            app_name: Seq::empty(),
            connected: false,
        }
    }

    /// This state with the application's id and name set.
    pub open spec fn with_session(self, app_id: Seq<char>, app_name: Seq<char>) -> ControllerView {
        ControllerView { app_id, app_name, ..self }
    }

    /// This state with the metadata replaced.
    pub open spec fn with_metadata(self, metadata: Option<MediaMetadataView>) -> ControllerView {
        ControllerView { metadata, ..self }
    }

    /// This state with the playback information replaced.
    pub open spec fn with_playback_info(self, info: PlaybackInfo) -> ControllerView {
        ControllerView { playback_info: Some(info), ..self }
    }

    /// This state once connected to the bus.
    pub open spec fn with_connection(self) -> ControllerView {
        ControllerView { connected: true, ..self }
    }

    /// The playback status reported: the stored one, or stopped.
    pub open spec fn status(self) -> PlaybackStatus {
        match self.playback_info {
            Some(i) => i.status,
            None => PlaybackStatus::Stopped,
        }
    }

    /// The position reported (as `f64` bits): the stored one, or 0.
    pub open spec fn position_bits(self) -> u64 {
        match self.playback_info {
            Some(i) => i.position_bits,
            None => ZERO_SECONDS_BITS,
        }
    }

    /// The state after a change of playback status: the stored information
    /// with the new status, or, without stored information, no change.
    pub open spec fn after_status_change(self, status: PlaybackStatus) -> ControllerView {
        match self.playback_info {
            Some(i) => self.with_playback_info(PlaybackInfo { status, ..i }),
            None => self,
        }
    }

    /// The state after a change of position: the stored information with the
    /// new position, or, without stored information, no change.
    pub open spec fn after_position_change(self, position_bits: u64) -> ControllerView {
        match self.playback_info {
            Some(i) => self.with_playback_info(PlaybackInfo { position_bits, ..i }),
            None => self,
        }
    }
}

/// Fixed answers of the MPRIS interfaces.
#[derive(Clone, Copy, Debug, PartialEq, Eq, Structural)]
pub struct Capabilities {
    pub can_quit: bool,
    pub can_raise: bool,
    pub has_track_list: bool,
    pub can_go_next: bool,
    pub can_go_previous: bool,
    pub can_play: bool,
    pub can_pause: bool,
    pub can_seek: bool,
    pub can_control: bool,
    /// `Volume`, as `f64` bits.
    pub volume_bits: u64,
    /// `MinimumRate`, as `f64` bits.
    pub minimum_rate_bits: u64,
    /// `MaximumRate`, as `f64` bits.
    pub maximum_rate_bits: u64,
}

/// The fixed answers: the player cannot quit, be raised or list tracks; it
/// can go to the next and previous track, play, pause, seek and be
/// controlled; volume and both rate bounds are 1.0.
pub open spec fn mpris_capabilities() -> Capabilities {
    Capabilities {
        can_quit: false,
        can_raise: false,
        has_track_list: false,
        can_go_next: true,
        can_go_previous: true,
        can_play: true,
        can_pause: true,
        can_seek: true,
        can_control: true,
        volume_bits: UNIT_RATE_BITS,
        minimum_rate_bits: UNIT_RATE_BITS,
        maximum_rate_bits: UNIT_RATE_BITS,
    }
}

/// What the caller registers on the bus when a session starts: the bus name
/// to request and the values of the exported MPRIS properties.
pub struct MprisRegistration {
    pub bus_name: String,
    /// `Identity`.
    pub identity: String,
    /// `SupportedUriSchemes`.
    pub supported_uri_schemes: Vec<String>,
    /// `SupportedMimeTypes`.
    pub supported_mime_types: Vec<String>,
    pub capabilities: Capabilities,
    /// The playback properties, as they are when the session starts.
    pub player: PlayerProperties,
    /// The `Metadata` dictionary, as it is when the session starts.
    pub metadata: MetadataDict,
}

/// The mathematical value of an [`MprisRegistration`].
pub struct MprisRegistrationView {
    pub bus_name: Seq<char>,
    pub identity: Seq<char>,
    pub supported_uri_schemes: Seq<Seq<char>>,
    pub supported_mime_types: Seq<Seq<char>>,
    pub capabilities: Capabilities,
    pub player: PlayerPropertiesView,
    pub metadata: MetadataDictView,
}

impl View for MprisRegistration {
    type V = MprisRegistrationView;

    open spec fn view(&self) -> MprisRegistrationView {
        MprisRegistrationView {
            bus_name: self.bus_name@,
            identity: self.identity@,
            supported_uri_schemes: self.supported_uri_schemes@.map_values(|s: String| s@),
            supported_mime_types: self.supported_mime_types@.map_values(|s: String| s@),
            capabilities: self.capabilities,
            player: self.player@,
            metadata: self.metadata@,
        }
    }
}

/// The bus name of the application `app_id`.
pub open spec fn bus_name_of(app_id: Seq<char>) -> Seq<char> {
    player_prefix() + app_id
}

/// The registration of the session in state `c`.
pub open spec fn registration_of(c: ControllerView) -> MprisRegistrationView {
    MprisRegistrationView {
        bus_name: bus_name_of(c.app_id),
        identity: c.app_name,
        supported_uri_schemes: seq!["file"@, "http"@, "https"@],
        supported_mime_types: seq!["audio/mpeg"@, "audio/mp4"@, "audio/ogg"@],
        capabilities: mpris_capabilities(),
        player: player_properties_of(c.playback_info),
        metadata: metadata_dict_of(c.metadata, c.app_id),
    }
}

/// One step of finding the metadata to report.
pub enum MetadataLookup {
    /// Fetch the metadata of the player at this index of the name list, and
    /// hand it to [`LinuxMediaController::continue_metadata_lookup`].
    Fetch(usize),
    /// The metadata to report.
    Done(Option<MediaMetadata>),
}

/// The mathematical value of a [`MetadataLookup`].
pub enum MetadataLookupView {
    Fetch(int),
    Done(Option<MediaMetadataView>),
}

impl View for MetadataLookup {
    type V = MetadataLookupView;

    open spec fn view(&self) -> MetadataLookupView {
        match self {
            MetadataLookup::Fetch(i) => MetadataLookupView::Fetch(*i as int),
            MetadataLookup::Done(m) => MetadataLookupView::Done(opt_metadata(*m)),
        }
    }
}

/// The views of a vector of names.
pub open spec fn names_view(names: Seq<String>) -> Seq<Seq<char>> {
    names.map_values(|s: String| s@)
}

/// The index of the first name at or after `from` that is another player's.
pub open spec fn first_other_player(names: Seq<Seq<char>>, app_id: Seq<char>, from: int) -> Option<
    int,
>
    decreases names.len() - from,
{
    if from < 0 || from >= names.len() {
        None
    } else if is_other_player(names[from], app_id) {
        Some(from)
    } else {
        first_other_player(names, app_id, from + 1)
    }
}

/// The lookup step from index `from`: without a bus connection, report the
/// session's own metadata; otherwise fetch the next other player, or, when
/// there is none, report the session's own metadata.
pub open spec fn lookup_from(c: ControllerView, names: Seq<Seq<char>>, from: int) -> MetadataLookupView {
    if !c.connected {
        MetadataLookupView::Done(c.metadata)
    } else {
        match first_other_player(names, c.app_id, from) {
            Some(j) => MetadataLookupView::Fetch(j),
            None => MetadataLookupView::Done(c.metadata),
        }
    }
}

/// The metadata that fetched dictionary gives, if it was fetched.
pub open spec fn fetched_metadata(fetched: Option<Seq<RemoteEntryView>>) -> Option<MediaMetadataView> {
    match fetched {
        Some(es) => remote_metadata_of(es),
        None => None,
    }
}

/// The lookup step after fetching the dictionary of the player at `index`:
/// report what it gives, or go on after it.
pub open spec fn lookup_after_fetch(
    c: ControllerView,
    names: Seq<Seq<char>>,
    index: int,
    fetched: Option<Seq<RemoteEntryView>>,
) -> MetadataLookupView {
    match fetched_metadata(fetched) {
        Some(m) => MetadataLookupView::Done(Some(m)),
        None => lookup_from(c, names, index + 1),
    }
}

/// The metadata reported, given the names on the bus and what fetching each
/// one would give: without a bus connection the session's own; otherwise
/// that of the first other player (from `from` on) whose dictionary gives
/// metadata, or else the session's own.
pub open spec fn reported_metadata(
    c: ControllerView,
    names: Seq<Seq<char>>,
    fetched: Seq<Option<Seq<RemoteEntryView>>>,
    from: int,
) -> Option<MediaMetadataView>
    decreases names.len() - from,
{
    if !c.connected || from < 0 || from >= names.len() {
        c.metadata
    } else if is_other_player(names[from], c.app_id) && fetched_metadata(fetched[from]) is Some {
        fetched_metadata(fetched[from])
    } else {
        reported_metadata(c, names, fetched, from + 1)
    }
}

/// The optional view of fetched entries.
pub open spec fn opt_entries_view(o: Option<Vec<RemoteEntry>>) -> Option<Seq<RemoteEntryView>> {
    match o {
        Some(v) => Some(entries_view(v@)),
        None => None,
    }
}

impl LinuxMediaController {
    /// A new controller: nothing playing, no application, not connected.
    pub fn new() -> (r: LinuxMediaController)
        ensures
            r@ == ControllerView::initial(),
    {
        LinuxMediaController {
            metadata: None,
            playback_info: None,
            app_id: String::new(),
            app_name: String::new(),
            connected: false,
        }
    }

    /// Starts a session for the application `app_id` named `app_name`: stores
    /// both, and returns what to register on the bus. Once the caller has
    /// registered it, it calls [`Self::session_established`]; if that fails,
    /// the id and name stay stored.
    pub fn initialize_session(&mut self, app_id: String, app_name: String) -> (plan: MprisRegistration)
        ensures
            final(self)@ == old(self)@.with_session(app_id@, app_name@),
            plan@ == registration_of(final(self)@),
    {
        self.app_id = app_id;
        self.app_name = app_name;
        self.registration()
    }

    /// What to register on the bus for the current state.
    pub fn registration(&self) -> (plan: MprisRegistration)
        ensures
            plan@ == registration_of(self@),
    {
        let mut bus_name = String::from_str("org.mpris.MediaPlayer2.");
        bus_name.append(self.app_id.as_str());
        let schemes = vec![
            String::from_str("file"),
            String::from_str("http"),
            String::from_str("https"),
        ];
        let mimes = vec![
            String::from_str("audio/mpeg"),
            String::from_str("audio/mp4"),
            String::from_str("audio/ogg"),
        ];
        let plan = MprisRegistration {
            bus_name,
            identity: self.app_name.clone(),
            supported_uri_schemes: schemes,
            supported_mime_types: mimes,
            capabilities: Capabilities {
                can_quit: false,
                can_raise: false,
                has_track_list: false,
                can_go_next: true,
                can_go_previous: true,
                can_play: true,
                can_pause: true,
                can_seek: true,
                can_control: true,
                volume_bits: UNIT_RATE_BITS,
                minimum_rate_bits: UNIT_RATE_BITS,
                maximum_rate_bits: UNIT_RATE_BITS,
            },
            player: player_properties(&self.playback_info),
            metadata: metadata_dict(&self.metadata, &self.app_id),
        };
        assert(plan@.supported_uri_schemes =~= seq!["file"@, "http"@, "https"@]);
        assert(plan@.supported_mime_types =~= seq!["audio/mpeg"@, "audio/mp4"@, "audio/ogg"@]);
        plan
    }

    /// Records that the bus connection has been established.
    pub fn session_established(&mut self)
        ensures
            final(self)@ == old(self)@.with_connection(),
    {
        self.connected = true;
    }

    /// Replaces the metadata. When connected, returns the new `Metadata`
    /// dictionary to announce; otherwise nothing.
    pub fn set_metadata(&mut self, metadata: MediaMetadata) -> (signal: Option<MetadataDict>)
        ensures
            final(self)@ == old(self)@.with_metadata(Some(metadata@)),
            signal is Some == old(self)@.connected,
            signal matches Some(d) ==> d@ == metadata_dict_of(Some(metadata@), old(self)@.app_id),
    {
        self.metadata = Some(metadata);
        if self.connected {
            Some(metadata_dict(&self.metadata, &self.app_id))
        } else {
            None
        }
    }

    /// Removes the metadata. When connected, returns the (empty) `Metadata`
    /// dictionary to announce; otherwise nothing.
    pub fn clear_metadata(&mut self) -> (signal: Option<MetadataDict>)
        ensures
            final(self)@ == old(self)@.with_metadata(None),
            signal is Some == old(self)@.connected,
            signal matches Some(d) ==> d@ == metadata_dict_of(None, old(self)@.app_id),
    {
        self.metadata = None;
        if self.connected {
            Some(MetadataDict::empty())
        } else {
            None
        }
    }

    /// Replaces the playback information. When connected, returns the
    /// playback properties to announce; otherwise nothing.
    pub fn set_playback_info(&mut self, info: PlaybackInfo) -> (signal: Option<PlayerProperties>)
        ensures
            final(self)@ == old(self)@.with_playback_info(info),
            signal is Some == old(self)@.connected,
            signal matches Some(p) ==> p@ == player_properties_of(Some(info)),
    {
        self.playback_info = Some(info);
        if self.connected {
            Some(player_properties(&self.playback_info))
        } else {
            None
        }
    }

    /// Changes the playback status of the stored playback information, as
    /// [`Self::set_playback_info`] does; without stored information, does
    /// nothing and announces nothing.
    pub fn set_playback_status(&mut self, status: PlaybackStatus) -> (signal: Option<PlayerProperties>)
        ensures
            final(self)@ == old(self)@.after_status_change(status),
            signal is Some == (old(self)@.connected && old(self)@.playback_info is Some),
            signal matches Some(p) ==> p@ == player_properties_of(final(self)@.playback_info),
    {
        match self.playback_info {
            Some(info) => {
                let updated = PlaybackInfo { status, ..info };
                self.set_playback_info(updated)
            },
            None => None,
        }
    }

    /// Changes the position (as `f64` bits) of the stored playback
    /// information, as [`Self::set_playback_info`] does; without stored
    /// information, does nothing and announces nothing.
    pub fn set_position(&mut self, position_bits: u64) -> (signal: Option<PlayerProperties>)
        ensures
            final(self)@ == old(self)@.after_position_change(position_bits),
            signal is Some == (old(self)@.connected && old(self)@.playback_info is Some),
            signal matches Some(p) ==> p@ == player_properties_of(final(self)@.playback_info),
    {
        match self.playback_info {
            Some(info) => {
                let updated = PlaybackInfo { position_bits, ..info };
                self.set_playback_info(updated)
            },
            None => None,
        }
    }

    /// The stored playback information.
    pub fn get_playback_info(&self) -> (r: Option<PlaybackInfo>)
        ensures
            r == self@.playback_info,
    {
        self.playback_info
    }

    /// The playback status: the stored one, or stopped.
    pub fn get_playback_status(&self) -> (r: PlaybackStatus)
        ensures
            r == self@.status(),
    {
        match self.playback_info {
            Some(info) => info.status,
            None => PlaybackStatus::Stopped,
        }
    }

    /// The position in seconds (as `f64` bits): the stored one, or 0.
    pub fn get_position(&self) -> (r: u64)
        ensures
            r == self@.position_bits(),
    {
        match self.playback_info {
            Some(info) => info.position_bits,
            None => ZERO_SECONDS_BITS,
        }
    }

    /// Whether the bus connection has been established.
    pub fn is_enabled(&self) -> (r: bool)
        ensures
            r == self@.connected,
    {
        self.connected
    }

    /// The lookup step from index `from` of `names`.
    fn lookup_from(&self, names: &Vec<String>, from: usize) -> (r: MetadataLookup)
        ensures
            r@ == lookup_from(self@, names_view(names@), from as int),
    {
        let ghost nv = names_view(names@);
        let mut i = from;
        if !self.connected || i >= names.len() {
            return MetadataLookup::Done(copy_opt_metadata(&self.metadata));
        }
        while i < names.len()
            invariant
                nv == names_view(names@),
                self@.connected,
                from <= i <= names.len(),
                first_other_player(nv, self@.app_id, from as int) == first_other_player(
                    nv,
                    self@.app_id,
                    i as int,
                ),
            decreases names.len() - i,
        {
            assert(nv[i as int] == names@[i as int]@);
            if is_other_player_name(names[i].as_str(), self.app_id.as_str()) {
                return MetadataLookup::Fetch(i);
            }
            i = i + 1;
        }
        MetadataLookup::Done(copy_opt_metadata(&self.metadata))
    }

    /// Starts finding the metadata to report, given the bus names `names`:
    /// without a bus connection it reports the session's own metadata;
    /// otherwise the first step fetches the first other MPRIS player's
    /// dictionary, or, with none, reports the session's own metadata.
    pub fn get_metadata(&self, names: &Vec<String>) -> (r: MetadataLookup)
        ensures
            r@ == lookup_from(self@, names_view(names@), 0),
    {
        self.lookup_from(names, 0)
    }

    /// Goes on finding the metadata to report after fetching the dictionary
    /// of the player at `index` (`None` when the fetch failed): reports what
    /// it gives, or goes on with the next other player.
    pub fn continue_metadata_lookup(
        &self,
        names: &Vec<String>,
        index: usize,
        fetched: Option<Vec<RemoteEntry>>,
    ) -> (r: MetadataLookup)
        requires
            index < names.len(),
        ensures
            r@ == lookup_after_fetch(
                self@,
                names_view(names@),
                index as int,
                opt_entries_view(fetched),
            ),
    {
        let found = match &fetched {
            Some(entries) => remote_metadata(entries),
            None => None,
        };
        match found {
            Some(m) => MetadataLookup::Done(Some(m)),
            None => self.lookup_from(names, index + 1),
        }
    }
}

} // verus!
