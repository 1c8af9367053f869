//! Track address building: the query string a player asks a service
//! with, and the endpoint path per service.
//!
//! Fetching the answer is the shell's business; what is asked, and how
//! it is percent-coded, is the library's.

use vstd::prelude::*;
use vstd::string::*;
use crate::models::{ApiSource, Id};
use crate::playback::AudioFormat;
use crate::session::{id_str, id_to_string};

verus! {

pub uninterp spec fn urlenc_of(s: Seq<char>) -> Seq<char>;

/// Relies on urlencoding::encode: the percent-coding of the text alone.
#[verifier::external_body]
fn urlencode(s: &str) -> (r: String)
    ensures
        r@ == urlenc_of(s@),
{
    urlencoding::encode(s).into_owned()
}

/// One `name=value` query pair, both sides percent-coded.
pub open spec fn query_pair(k: Seq<char>, v: Seq<char>) -> Seq<char> {
    urlenc_of(k) + "="@ + urlenc_of(v)
}

/// The pairs joined with ampersands, in order.
pub open spec fn query_string_of(pairs: Seq<(Seq<char>, Seq<char>)>) -> Seq<char>
    decreases pairs.len(),
{
    if pairs.len() == 0 {
        Seq::empty()
    } else if pairs.len() == 1 {
        query_pair(pairs.last().0, pairs.last().1)
    } else {
        query_string_of(pairs.drop_last()) + "&"@ + query_pair(pairs.last().0, pairs.last().1)
    }
}

/// Renders query pairs as one percent-coded query string.
pub fn build_query_string(pairs: &Vec<(String, String)>) -> (r: String)
    ensures
        r@ == query_string_of(pairs@.map_values(|p: (String, String)| (p.0@, p.1@))),
{
    proof {
        reveal_strlit("=");
        reveal_strlit("&");
    }
    let ghost view = pairs@.map_values(|p: (String, String)| (p.0@, p.1@));
    let mut out = String::new();
    let mut i: usize = 0;
    proof {
        assert(view.take(0) =~= Seq::<(Seq<char>, Seq<char>)>::empty());
        assert(out@ =~= query_string_of(view.take(0)));
    }
    while i < pairs.len()
        invariant
            0 <= i <= pairs@.len(),
            view == pairs@.map_values(|p: (String, String)| (p.0@, p.1@)),
            view.len() == pairs@.len(),
            out@ == query_string_of(view.take(i as int)),
        decreases pairs.len() - i,
    {
        proof {
            reveal_strlit("=");
            reveal_strlit("&");
        }
        if i > 0 {
            out.append("&");
        }
        let k = urlencode(pairs[i].0.as_str());
        out.append(k.as_str());
        out.append("=");
        let v = urlencode(pairs[i].1.as_str());
        out.append(v.as_str());
        proof {
            assert(view.take(i as int + 1).drop_last() =~= view.take(i as int));
            assert(view.take(i as int + 1).last() == view[i as int]);
            assert(view[i as int] == (pairs@[i as int].0@, pairs@[i as int].1@));
            assert(out@ =~= query_string_of(view.take(i as int + 1)));
        }
        i = i + 1;
    }
    proof {
        assert(view.take(view.len() as int) =~= view);
    }
    out
}

/// The wire name of an audio format.
pub open spec fn format_name(f: AudioFormat) -> Seq<char> {
    match f {
        AudioFormat::Aac => "AAC"@,
        AudioFormat::Flac => "FLAC"@,
        AudioFormat::Mp3 => "MP3"@,
        AudioFormat::Opus => "OPUS"@,
        AudioFormat::Source => "SOURCE"@,
    }
}

/// Renders an audio format's wire name.
pub fn format_to_str(f: AudioFormat) -> (r: &'static str)
    ensures
        r@ == format_name(f),
{
    match f {
        AudioFormat::Aac => "AAC",
        AudioFormat::Flac => "FLAC",
        AudioFormat::Mp3 => "MP3",
        AudioFormat::Opus => "OPUS",
        AudioFormat::Source => "SOURCE",
    }
}

/// The query pairs a track address asks with: any extra pairs the
/// remote source demands, the track and its service, the profile when
/// one is pinned, then the service's own quality or format parameter.
pub fn track_url_query(
    extra: &Vec<(String, String)>,
    track_id: &Id,
    api_source: ApiSource,
    profile: &Option<String>,
    format: AudioFormat,
) -> (r: Vec<(String, String)>)
    ensures
        ({
            let base = extra@.len() + 2 + (if profile is Some {
                1int
            } else {
                0int
            });
            let with_format = base + (if api_source == ApiSource::Library && format
                != AudioFormat::Source {
                1int
            } else {
                if api_source != ApiSource::Library {
                    1int
                } else {
                    0int
                }
            });
            &&& r@.len() == with_format
            &&& forall|i: int| 0 <= i < extra@.len() ==> r@[i] == extra@[i]
            &&& r@[extra@.len() as int].0@ == "trackId"@ && r@[extra@.len() as int].1@ == id_str(
                track_id,
            )
        }),
{
    let mut pairs: Vec<(String, String)> = Vec::new();
    let mut i: usize = 0;
    while i < extra.len()
        invariant
            0 <= i <= extra@.len(),
            pairs@.len() == i,
            forall|j: int| 0 <= j < i ==> pairs@[j] == extra@[j],
        decreases extra.len() - i,
    {
        let p = (extra[i].0.clone(), extra[i].1.clone());
        proof {
            assert(p == extra@[i as int]);
        }
        pairs.push(p);
        i = i + 1;
    }
    pairs.push(("trackId".to_owned(), id_to_string(track_id)));
    pairs.push(("source".to_owned(), source_param(api_source).to_owned()));
    if let Some(p) = profile {
        pairs.push(("moosicboxProfile".to_owned(), p.clone()));
    }
    match api_source {
        ApiSource::Library => {
            if !matches!(format, AudioFormat::Source) {
                pairs.push(("format".to_owned(), format_to_str(format).to_owned()));
            }
        },
        ApiSource::Tidal => {
            pairs.push(("audioQuality".to_owned(), "HIGH".to_owned()));
        },
        ApiSource::Qobuz => {
            pairs.push(("audioQuality".to_owned(), "LOW".to_owned()));
        },
        ApiSource::Yt => {
            pairs.push(("audioQuality".to_owned(), "LOW".to_owned()));
        },
    }
    pairs
}

/// The wire name of a service in a track query.
pub fn source_param(s: ApiSource) -> (r: &'static str)
    ensures
        r@ == (match s {
            ApiSource::Library => "LIBRARY"@,
            ApiSource::Tidal => "TIDAL"@,
            ApiSource::Qobuz => "QOBUZ"@,
            ApiSource::Yt => "YT"@,
        }),
{
    match s {
        ApiSource::Library => "LIBRARY",
        ApiSource::Tidal => "TIDAL",
        ApiSource::Qobuz => "QOBUZ",
        ApiSource::Yt => "YT",
    }
}

/// The endpoint a track address is fetched from, per service: the
/// library serves bytes directly, the remote services serve a lookup
/// that returns the real address.
pub fn track_url_path(host: &str, api_source: ApiSource, query_string: &str) -> (r: String)
    ensures
        r@ == host@ + (match api_source {
            ApiSource::Library => "/files/track?"@,
            ApiSource::Tidal => "/tidal/track/url?"@,
            ApiSource::Qobuz => "/qobuz/track/url?"@,
            ApiSource::Yt => "/yt/track/url?"@,
        }) + query_string@,
{
    let mut out = host.to_owned();
    match api_source {
        ApiSource::Library => out.append("/files/track?"),
        ApiSource::Tidal => out.append("/tidal/track/url?"),
        ApiSource::Qobuz => out.append("/qobuz/track/url?"),
        ApiSource::Yt => out.append("/yt/track/url?"),
    }
    out.append(query_string);
    out
}

/// The address the relay socket is opened at: the configured url with
/// the client identifier, the sender marker and the signature token,
/// exactly as the relay expects them.
pub fn relay_connect_url(url: &str, client_id: &str, signature: &str) -> (r: String)
    ensures
        r@ == url@ + "?clientId="@ + client_id@ + "&sender=true&signature="@ + signature@,
{
    let mut out = url.to_owned();
    out.append("?clientId=");
    out.append(client_id);
    out.append("&sender=true&signature=");
    out.append(signature);
    out
}

} // verus!
