//! The values that a media session is made of: what is playing, and how.
//!
//! Durations, positions and rates are seconds (or a ratio) held as `f64` by
//! callers. This library never computes on them: it carries each one as the
//! IEEE-754 bit pattern of that `f64` (`f64::to_bits`), which callers convert
//! back with `f64::from_bits`, losslessly.
use vstd::prelude::*;

verus! {

/// The bit pattern of `0.0_f64`.
pub const ZERO_SECONDS_BITS: u64 = 0u64;

/// The bit pattern of `1.0_f64`.
pub const UNIT_RATE_BITS: u64 = 0x3FF0_0000_0000_0000u64;

/// Whether the player is playing.
#[derive(Clone, Copy, Debug, PartialEq, Eq, Structural)]
pub enum PlaybackStatus {
    Playing,
    Paused,
    Stopped,
}

/// How the player repeats.
#[derive(Clone, Copy, Debug, PartialEq, Eq, Structural)]
pub enum RepeatMode {
    /// No repeat (MPRIS calls it `None`).
    NoRepeat,
    Track,
    List,
}

/// The state of playback.
#[derive(Clone, Copy, Debug, PartialEq, Eq, Structural)]
pub struct PlaybackInfo {
    pub status: PlaybackStatus,
    /// Position in seconds, as `f64` bits.
    pub position_bits: u64,
    /// Playback rate, as `f64` bits.
    pub playback_rate_bits: u64,
    pub shuffle: bool,
    pub repeat_mode: RepeatMode,
}

/// What is playing.
#[derive(Clone, Debug)]
pub struct MediaMetadata {
    pub title: String,
    pub artist: Option<String>,
    pub album: Option<String>,
    pub album_artist: Option<String>,
    pub artwork_url: Option<String>,
    pub artwork_data: Option<Vec<u8>>,
    /// Duration in seconds, as `f64` bits.
    pub duration_bits: Option<u64>,
}

/// The mathematical value of a [`MediaMetadata`].
pub struct MediaMetadataView {
    pub title: Seq<char>,
    pub artist: Option<Seq<char>>,
    pub album: Option<Seq<char>>,
    pub album_artist: Option<Seq<char>>,
    pub artwork_url: Option<Seq<char>>,
    pub artwork_data: Option<Seq<u8>>,
    pub duration_bits: Option<u64>,
}

/// The view of an optional string.
pub open spec fn opt_text(o: Option<String>) -> Option<Seq<char>> {
    match o {
        Some(s) => Some(s@),
        None => None,
    }
}

/// The view of optional bytes.
pub open spec fn opt_bytes(o: Option<Vec<u8>>) -> Option<Seq<u8>> {
    match o {
        Some(v) => Some(v@),
        None => None,
    }
}

impl View for MediaMetadata {
    type V = MediaMetadataView;

    open spec fn view(&self) -> MediaMetadataView {
        MediaMetadataView {
            title: self.title@,
            artist: opt_text(self.artist),
            album: opt_text(self.album),
            album_artist: opt_text(self.album_artist),
            artwork_url: opt_text(self.artwork_url),
            artwork_data: opt_bytes(self.artwork_data),
            duration_bits: self.duration_bits,
        }
    }
}

/// The view of optional metadata.
pub open spec fn opt_metadata(o: Option<MediaMetadata>) -> Option<MediaMetadataView> {
    match o {
        Some(m) => Some(m@),
        None => None,
    }
}

/// A copy of an optional string.
pub fn copy_opt_text(o: &Option<String>) -> (r: Option<String>)
    ensures
        opt_text(r) == opt_text(*o),
{
    match o {
        Some(s) => Some(s.clone()),
        None => None,
    }
}

/// A copy of a byte vector.
pub fn copy_bytes(v: &Vec<u8>) -> (r: Vec<u8>)
    ensures
        r@ == v@,
{
    let mut r: Vec<u8> = Vec::new();
    let mut i: usize = 0;
    while i < v.len()
        invariant
            i <= v.len(),
            r@ == v@.subrange(0, i as int),
        decreases v.len() - i,
    {
        r.push(v[i]);
        i = i + 1;
    }
    assert(v@.subrange(0, v.len() as int) =~= v@);
    r
}

impl MediaMetadata {
    /// A copy of this metadata, equal to it in every field.
    pub fn duplicate(&self) -> (r: MediaMetadata)
        ensures
            r@ == self@,
    {
        MediaMetadata {
            title: self.title.clone(),
            artist: copy_opt_text(&self.artist),
            album: copy_opt_text(&self.album),
            album_artist: copy_opt_text(&self.album_artist),
            artwork_url: copy_opt_text(&self.artwork_url),
            artwork_data: match &self.artwork_data {
                Some(d) => Some(copy_bytes(d)),
                None => None,
            },
            duration_bits: self.duration_bits,
        }
    }
}

/// A copy of optional metadata.
pub fn copy_opt_metadata(o: &Option<MediaMetadata>) -> (r: Option<MediaMetadata>)
    ensures
        opt_metadata(r) == opt_metadata(*o),
{
    match o {
        Some(m) => Some(m.duplicate()),
        None => None,
    }
}

} // verus!
