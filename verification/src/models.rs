//! Core data model: sources, identifiers and album/track metadata.

use vstd::prelude::*;
use crate::num::{parse_u64, ParseIntError};

verus! {

/// Converts a raw value into its model type.
pub trait AsModel<T> {
    fn as_model(&self) -> T;
}

/// Converts a raw value into its model type, or reports why it cannot.
pub trait AsModelResult<T, E> {
    fn as_model(&self) -> Result<T, E>;
}

/// Converts a raw collection into a list of model values, or fails as a whole.
pub trait AsModelResultMapped<T, E> {
    fn as_model_mapped(&self) -> Result<Vec<T>, E>;
}

/// Like [`AsModelResultMapped`], consuming the raw collection in place.
pub trait AsModelResultMappedMut<T, E> {
    fn as_model_mapped_mut(&mut self) -> Result<Vec<T>, E>;
}

/// Converts an internal value into its outward-facing representation.
pub trait ToApi<T> {
    fn to_api(self) -> T;
}

/// The service a track or album is served from.
#[derive(Clone, Copy, Debug, PartialEq, Eq, Hash, Structural, Default)]
pub enum ApiSource {
    #[default]
    Library,
    Tidal,
    Qobuz,
    Yt,
}

/// The storage a concrete track file comes from.
#[derive(Clone, Copy, Debug, PartialEq, Eq, Structural, Default)]
pub enum TrackApiSource {
    #[default]
    Local,
    Tidal,
    Qobuz,
    Yt,
}

/// The library an album was imported from.
#[derive(Clone, Copy, Debug, PartialEq, Eq, Structural, Default)]
pub enum AlbumSource {
    #[default]
    Local,
    Tidal,
    Qobuz,
    Yt,
}

/// What [`ApiSource`] a [`TrackApiSource`] maps to.
pub open spec fn track_to_api_source(value: TrackApiSource) -> ApiSource {
    match value {
        TrackApiSource::Local => ApiSource::Library,
        TrackApiSource::Tidal => ApiSource::Tidal,
        TrackApiSource::Qobuz => ApiSource::Qobuz,
        TrackApiSource::Yt => ApiSource::Yt,
    }
}

/// What [`TrackApiSource`] an [`AlbumSource`] maps to.
pub open spec fn album_to_track_source(value: AlbumSource) -> TrackApiSource {
    match value {
        AlbumSource::Local => TrackApiSource::Local,
        AlbumSource::Tidal => TrackApiSource::Tidal,
        AlbumSource::Qobuz => TrackApiSource::Qobuz,
        AlbumSource::Yt => TrackApiSource::Yt,
    }
}

/// What [`AlbumSource`] a [`TrackApiSource`] maps to.
pub open spec fn track_to_album_source(value: TrackApiSource) -> AlbumSource {
    match value {
        TrackApiSource::Local => AlbumSource::Local,
        TrackApiSource::Tidal => AlbumSource::Tidal,
        TrackApiSource::Qobuz => AlbumSource::Qobuz,
        TrackApiSource::Yt => AlbumSource::Yt,
    }
}

impl vstd::std_specs::convert::FromSpecImpl<TrackApiSource> for ApiSource {
    open spec fn obeys_from_spec() -> bool {
        true
    }

    open spec fn from_spec(value: TrackApiSource) -> Self {
        track_to_api_source(value)
    }
}

impl From<TrackApiSource> for ApiSource {
    fn from(value: TrackApiSource) -> (r: Self)
        ensures
            r == track_to_api_source(value),
    {
        match value {
            TrackApiSource::Local => ApiSource::Library,
            TrackApiSource::Tidal => ApiSource::Tidal,
            TrackApiSource::Qobuz => ApiSource::Qobuz,
            TrackApiSource::Yt => ApiSource::Yt,
        }
    }
}

impl vstd::std_specs::convert::FromSpecImpl<AlbumSource> for TrackApiSource {
    open spec fn obeys_from_spec() -> bool {
        true
    }

    open spec fn from_spec(value: AlbumSource) -> Self {
        album_to_track_source(value)
    }
}

impl From<AlbumSource> for TrackApiSource {
    fn from(value: AlbumSource) -> (r: Self)
        ensures
            r == album_to_track_source(value),
    {
        match value {
            AlbumSource::Local => TrackApiSource::Local,
            AlbumSource::Tidal => TrackApiSource::Tidal,
            AlbumSource::Qobuz => TrackApiSource::Qobuz,
            AlbumSource::Yt => TrackApiSource::Yt,
        }
    }
}

impl vstd::std_specs::convert::FromSpecImpl<TrackApiSource> for AlbumSource {
    open spec fn obeys_from_spec() -> bool {
        true
    }

    open spec fn from_spec(value: TrackApiSource) -> Self {
        track_to_album_source(value)
    }
}

impl From<TrackApiSource> for AlbumSource {
    fn from(value: TrackApiSource) -> (r: Self)
        ensures
            r == track_to_album_source(value),
    {
        match value {
            TrackApiSource::Local => AlbumSource::Local,
            TrackApiSource::Tidal => AlbumSource::Tidal,
            TrackApiSource::Qobuz => AlbumSource::Qobuz,
            TrackApiSource::Yt => AlbumSource::Yt,
        }
    }
}

/// What kind of entity an identifier names.
#[derive(Clone, Copy, Debug, PartialEq, Eq, Structural)]
pub enum IdType {
    Artist,
    Album,
    Track,
}

/// An entity identifier: numeric for most services, textual for the rest.
#[derive(Debug, Eq, Hash)]
pub enum Id {
    String(String),
    Number(u64),
}

impl Clone for Id {
    fn clone(&self) -> (r: Self)
        ensures
            r == *self,
    {
        match self {
            Id::String(s) => Id::String(s.clone()),
            Id::Number(n) => Id::Number(*n),
        }
    }
}

/// The mathematical value of an [`Id`]: one of the two payloads.
pub open spec fn id_eq_spec(a: &Id, b: &Id) -> bool {
    match (a, b) {
        (Id::String(x), Id::String(y)) => x@ == y@,
        (Id::Number(x), Id::Number(y)) => x == y,
        _ => false,
    }
}

impl PartialEq for Id {
    fn eq(&self, other: &Id) -> (r: bool) {
        match (self, other) {
            (Id::String(x), Id::String(y)) => x.eq(y),
            (Id::Number(x), Id::Number(y)) => *x == *y,
            _ => false,
        }
    }
}

impl vstd::std_specs::cmp::PartialEqSpecImpl for Id {
    open spec fn obeys_eq_spec() -> bool {
        true
    }

    open spec fn eq_spec(&self, other: &Id) -> bool {
        id_eq_spec(self, other)
    }
}

impl Default for Id {
    fn default() -> (r: Self)
        ensures
            r == Id::Number(0),
    {
        Id::Number(0)
    }
}

/// The reason an identifier could not be read from text.
#[derive(Clone, Copy, Debug)]
pub enum IdFromStrError {
    PopulateIndex(ParseIntError),
}

/// Whether identifiers of this kind from this service are numeric.
pub open spec fn id_is_numeric(source: ApiSource, id_type: IdType) -> bool {
    match id_type {
        IdType::Artist => source != ApiSource::Yt,
        IdType::Album => source == ApiSource::Library || source == ApiSource::Tidal,
        IdType::Track => source != ApiSource::Yt,
    }
}

impl Id {
    /// Reads an identifier, panicking never: numeric services demand a
    /// parseable number, so the caller must have checked it.
    pub fn from_str(value: &str, source: ApiSource, id_type: IdType) -> (r: Self)
        requires
            id_is_numeric(source, id_type) ==> value@.len() > 0
                && crate::num::all_digits(value@)
                && crate::num::dec_val(value@) <= u64::MAX,
        ensures
            id_is_numeric(source, id_type) ==> (r matches Id::Number(n)
                && n as nat == crate::num::dec_val(value@)),
            !id_is_numeric(source, id_type) ==> (r matches Id::String(s) && s@ == value@),
    {
        let r = Self::try_from_str(value, source, id_type);
        match r {
            Ok(id) => id,
            Err(_) => {
                proof {
                    assert(false);
                }
                Id::Number(0)
            },
        }
    }

    /// Reads an identifier: numeric services demand a number, textual
    /// services take the text as it stands.
    pub fn try_from_str(value: &str, source: ApiSource, id_type: IdType) -> (r: Result<
        Self,
        IdFromStrError,
    >)
        ensures
            id_is_numeric(source, id_type) ==> (match r {
                Ok(id) => id matches Id::Number(n) && n as nat == crate::num::dec_val(value@)
                    && value@.len() > 0 && crate::num::all_digits(value@)
                    && crate::num::dec_val(value@) <= u64::MAX,
                Err(e) => !(value@.len() > 0 && crate::num::all_digits(value@)
                    && crate::num::dec_val(value@) <= u64::MAX),
            }),
            !id_is_numeric(source, id_type) ==> (r matches Ok(id) && id matches Id::String(s)
                && s@ == value@),
    {
        let numeric = match id_type {
            IdType::Artist => match source {
                ApiSource::Library => true,
                ApiSource::Tidal => true,
                ApiSource::Qobuz => true,
                ApiSource::Yt => false,
            },
            IdType::Album => match source {
                ApiSource::Library => true,
                ApiSource::Tidal => true,
                ApiSource::Qobuz => false,
                ApiSource::Yt => false,
            },
            IdType::Track => match source {
                ApiSource::Library => true,
                ApiSource::Tidal => true,
                ApiSource::Qobuz => true,
                ApiSource::Yt => false,
            },
        };
        if numeric {
            match parse_u64(value) {
                Some(n) => Ok(Id::Number(n)),
                None => Err(IdFromStrError::PopulateIndex(ParseIntError::InvalidDigit)),
            }
        } else {
            Ok(Id::String(value.to_owned()))
        }
    }
}

/// A bare numeric identifier row.
#[derive(Clone, Debug, Default)]
pub struct NumberId {
    pub id: i32,
}

/// A bare textual identifier row.
#[derive(Clone, Debug, Default)]
pub struct StringId {
    pub id: String,
}

/// A request to move a session's progress to an absolute second.
#[derive(Clone, Debug, Default)]
pub struct SetSeek {
    pub session_id: i32,
    pub seek: i32,
}

/// The stored byte size of one encoding of a track.
#[derive(Clone, Debug, Default)]
pub struct TrackSize {
    pub id: i32,
    pub track_id: i32,
    pub bytes: Option<u64>,
    pub format: String,
}

/// How artist listings are ordered.
#[derive(Clone, Copy, Debug, PartialEq, Eq, Structural)]
pub enum ArtistSort {
    NameAsc,
    NameDesc,
}

/// How album listings are ordered.
#[derive(Clone, Copy, Debug, PartialEq, Eq, Structural)]
pub enum AlbumSort {
    ArtistAsc,
    ArtistDesc,
    NameAsc,
    NameDesc,
    ReleaseDateAsc,
    ReleaseDateDesc,
    DateAddedAsc,
    DateAddedDesc,
}

/// The identifiers an entity carries with each service it is known to.
#[derive(Clone, Debug, Default)]
pub struct ApiSources(pub Vec<(ApiSource, Id)>);

/// Keeps the entries whose service differs from the one being removed.
pub open spec fn keeps_other_source(source: ApiSource) -> spec_fn((ApiSource, Id)) -> bool {
    |p: (ApiSource, Id)| p.0 != source
}

impl ApiSources {
    /// Records an identifier for a service.
    pub fn add_source(&mut self, source: ApiSource, id: Id)
        ensures
            final(self).0@ == old(self).0@.push((source, id)),
    {
        self.0.push((source, id));
    }

    /// Forgets every identifier recorded for a service.
    pub fn remove_source(&mut self, source: ApiSource)
        ensures
            final(self).0@ == old(self).0@.filter(keeps_other_source(source)),
    {
        let mut kept: Vec<(ApiSource, Id)> = Vec::new();
        let mut i: usize = 0;
        proof {
            reveal(Seq::filter);
            assert(old(self).0@.take(0) =~= Seq::<(ApiSource, Id)>::empty());
        }
        while i < self.0.len()
            invariant
                0 <= i <= self.0.len(),
                self.0@ == old(self).0@,
                kept@ == old(self).0@.take(i as int).filter(keeps_other_source(source)),
            decreases self.0.len() - i,
        {
            let s = self.0[i].0;
            let id = self.0[i].1.clone();
            if !source_eq(s, source) {
                kept.push((s, id));
            }
            proof {
                reveal(Seq::filter);
                let prefix = self.0@.take(i as int + 1);
                assert(prefix.drop_last() =~= self.0@.take(i as int));
                assert(prefix.last() == self.0@[i as int]);
                assert(kept@ == prefix.filter(keeps_other_source(source)));
            }
            i = i + 1;
        }
        proof {
            assert(self.0@.take(self.0@.len() as int) =~= self.0@);
        }
        self.0 = kept;
    }

    /// Records an identifier for a service when one is given.
    pub fn add_source_opt(&mut self, source: ApiSource, id: Option<Id>)
        ensures
            match id {
                Some(v) => final(self).0@ == old(self).0@.push((source, v)),
                None => *final(self) == *old(self),
            },
    {
        if let Some(id) = id {
            self.0.push((source, id));
        }
    }

    /// Returns the collection extended with an identifier for a service.
    pub fn with_source(self, source: ApiSource, id: Id) -> (r: Self)
        ensures
            r.0@ == self.0@.push((source, id)),
    {
        let mut this = self;
        this.0.push((source, id));
        this
    }

    /// Returns the collection extended with an identifier when one is given.
    pub fn with_source_opt(self, source: ApiSource, id: Option<Id>) -> (r: Self)
        ensures
            match id {
                Some(v) => r.0@ == self.0@.push((source, v)),
                None => r == self,
            },
    {
        let mut this = self;
        if let Some(id) = id {
            this.0.push((source, id));
        }
        this
    }

    /// Looks up the first identifier recorded for a service.
    pub fn get(&self, source: ApiSource) -> (r: Option<&Id>)
        ensures
            match r {
                Some(id) => exists|i: int|
                    0 <= i < self.0@.len() && #[trigger] self.0@[i].0 == source && self.0@[i].1
                        == *id && forall|j: int|
                        0 <= j < i ==> (#[trigger] self.0@[j]).0 != source,
                None => forall|i: int| 0 <= i < self.0@.len() ==> (#[trigger] self.0@[i]).0
                    != source,
            },
    {
        let mut i: usize = 0;
        while i < self.0.len()
            invariant
                0 <= i <= self.0.len(),
                forall|j: int| 0 <= j < i ==> (#[trigger] self.0@[j]).0 != source,
            decreases self.0.len() - i,
        {
            if source_eq(self.0[i].0, source) {
                return Some(&self.0[i].1);
            }
            i = i + 1;
        }
        None
    }
}

/// Compares two service tags.
pub fn source_eq(a: ApiSource, b: ApiSource) -> (r: bool)
    ensures
        r == (a == b),
{
    match (a, b) {
        (ApiSource::Library, ApiSource::Library) => true,
        (ApiSource::Tidal, ApiSource::Tidal) => true,
        (ApiSource::Qobuz, ApiSource::Qobuz) => true,
        (ApiSource::Yt, ApiSource::Yt) => true,
        _ => false,
    }
}

/// One album pressing's technical quality.
#[derive(Clone, Debug, Default)]
pub struct AlbumVersionQuality {
    pub format: Option<crate::playback::AudioFormat>,
    pub bit_depth: Option<u8>,
    pub sample_rate: Option<u32>,
    pub channels: Option<u8>,
    pub source: TrackApiSource,
}

/// The outward-facing form of [`AlbumVersionQuality`].
#[derive(Clone, Debug, Default)]
pub struct ApiAlbumVersionQuality {
    pub format: Option<crate::playback::AudioFormat>,
    pub bit_depth: Option<u8>,
    pub sample_rate: Option<u32>,
    pub channels: Option<u8>,
    pub source: TrackApiSource,
}

impl ToApi<ApiAlbumVersionQuality> for AlbumVersionQuality {
    fn to_api(self) -> (r: ApiAlbumVersionQuality)
        ensures
            r.format == self.format,
            r.bit_depth == self.bit_depth,
            r.sample_rate == self.sample_rate,
            r.channels == self.channels,
            r.source == self.source,
    {
        ApiAlbumVersionQuality {
            format: self.format,
            bit_depth: self.bit_depth,
            sample_rate: self.sample_rate,
            channels: self.channels,
            source: self.source,
        }
    }
}

/// An artist of the library.
#[derive(Clone, Debug)]
pub struct Artist {
    pub id: Id,
    pub title: String,
    pub cover: Option<String>,
    pub source: ApiSource,
}

/// An album of the library.
#[derive(Clone, Debug)]
pub struct Album {
    pub id: Id,
    pub title: String,
    pub artist: String,
    pub artist_id: Id,
    pub date_released: Option<String>,
    pub date_added: Option<String>,
    pub artwork: Option<String>,
    pub directory: Option<String>,
    pub blur: bool,
    pub versions: Vec<AlbumVersionQuality>,
    pub source: AlbumSource,
    pub artist_sources: ApiSources,
    pub album_sources: ApiSources,
}

} // verus!
