//! Streaming-service catalogue models and their artwork addresses.

use vstd::prelude::*;
use vstd::string::*;
use crate::num::{dec_str, format_u64};

verus! {

/// The device class used for authorization.
#[derive(Clone, Copy, Debug, PartialEq, Eq, Structural)]
pub enum TidalDeviceType {
    Browser,
}

/// The audio quality tiers the service offers.
#[derive(Clone, Copy, Debug, PartialEq, Eq, Structural)]
pub enum TidalAudioQuality {
    High,
    Lossless,
    HiResLossless,
}

/// How artist listings are ordered.
#[derive(Clone, Copy, Debug, PartialEq, Eq, Structural)]
pub enum TidalArtistOrder {
    Date,
}

#[derive(Clone, Copy, Debug, PartialEq, Eq, Structural)]
pub enum TidalArtistOrderDirection {
    Asc,
    Desc,
}

/// How album listings are ordered.
#[derive(Clone, Copy, Debug, PartialEq, Eq, Structural)]
pub enum TidalAlbumOrder {
    Date,
}

#[derive(Clone, Copy, Debug, PartialEq, Eq, Structural)]
pub enum TidalAlbumOrderDirection {
    Asc,
    Desc,
}

/// How track listings are ordered.
#[derive(Clone, Copy, Debug, PartialEq, Eq, Structural)]
pub enum TidalTrackOrder {
    Date,
}

#[derive(Clone, Copy, Debug, PartialEq, Eq, Structural)]
pub enum TidalTrackOrderDirection {
    Asc,
    Desc,
}

/// An album as the catalogue describes it.
#[derive(Clone, Debug, Default)]
pub struct TidalAlbum {
    pub id: u64,
    pub artist: String,
    pub artist_id: u64,
    pub audio_quality: String,
    pub copyright: Option<String>,
    pub cover: String,
    pub duration: u32,
    pub explicit: bool,
    pub number_of_tracks: u32,
    pub popularity: u32,
    pub release_date: String,
    pub title: String,
    pub media_metadata_tags: Vec<String>,
}

/// A track as the catalogue describes it.
#[derive(Clone, Debug, Default)]
pub struct TidalTrack {
    pub id: u64,
    pub track_number: u32,
    pub album_id: u64,
    pub artist_id: u64,
    pub audio_quality: String,
    pub copyright: Option<String>,
    pub duration: u32,
    pub explicit: bool,
    pub isrc: String,
    pub popularity: u32,
    pub title: String,
    pub media_metadata_tags: Vec<String>,
}

/// An artist as the catalogue describes it.
#[derive(Clone, Debug, Default)]
pub struct TidalArtist {
    pub id: u64,
    pub picture: Option<String>,
    pub popularity: u32,
    pub name: String,
}

/// Every dash replaced by a slash: artwork identifiers become paths.
pub open spec fn dash_to_slash(s: Seq<char>) -> Seq<char> {
    s.map_values(
        |c: char|
            if c == '-' {
                '/'
            } else {
                c
            },
    )
}

/// Rewrites an artwork identifier as a path: dashes become slashes.
pub fn dashes_to_slashes(s: &str) -> (r: String)
    ensures
        r@ == dash_to_slash(s@),
{
    proof {
        reveal_strlit("/");
    }
    let len = s.unicode_len();
    let mut out = String::new();
    let mut start: usize = 0;
    let mut i: usize = 0;
    while i < len
        invariant
            0 <= start <= i <= len,
            len == s@.len(),
            out@ == dash_to_slash(s@.take(start as int)),
            forall|j: int| start <= j < i ==> s@[j] != '-',
        decreases len - i,
    {
        if s.get_char(i) == '-' {
            out.append(s.substring_char(start, i));
            out.append("/");
            proof {
                reveal_strlit("/");
                assert(out@ =~= dash_to_slash(s@.take(i as int + 1)));
            }
            start = i + 1;
        }
        i = i + 1;
    }
    out.append(s.substring_char(start, len));
    proof {
        assert(s@.take(len as int) =~= s@);
        assert(out@ =~= dash_to_slash(s@));
    }
    out
}

/// The address an album cover of a given square size is served from.
pub open spec fn cover_url_of(cover: Seq<char>, size: u16) -> Seq<char> {
    "https://resources.tidal.com/images/"@ + dash_to_slash(cover) + "/"@ + dec_str(size as nat)
        + "x"@ + dec_str(size as nat) + ".jpg"@
}

impl TidalAlbum {
    /// The address this album's cover is served from, at a square size.
    pub fn cover_url(&self, size: u16) -> (r: String)
        ensures
            r@ == cover_url_of(self.cover@, size),
    {
        artwork_url(&self.cover, size)
    }
}

impl TidalArtist {
    /// The address this artist's picture is served from, at a square
    /// size; absent when the artist has no picture.
    pub fn picture_url(&self, size: u16) -> (r: Option<String>)
        ensures
            r matches Some(u) ==> (self.picture matches Some(p) && u@ == cover_url_of(p@, size)),
            r is None <==> self.picture is None,
    {
        match &self.picture {
            Some(p) => Some(artwork_url(p, size)),
            None => None,
        }
    }
}

/// Builds the artwork address for an identifier and a square size.
fn artwork_url(cover: &str, size: u16) -> (r: String)
    ensures
        r@ == cover_url_of(cover@, size),
{
    let mut s = String::new();
    s.append("https://resources.tidal.com/images/");
    let path = dashes_to_slashes(cover);
    s.append(path.as_str());
    s.append("/");
    let size_text = format_u64(size as u64);
    s.append(size_text.as_str());
    s.append("x");
    s.append(size_text.as_str());
    s.append(".jpg");
    proof {
        assert(s@ =~= cover_url_of(cover@, size));
    }
    s
}

} // verus!
