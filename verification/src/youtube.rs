//! Finds the video that a bookmarked address points to.

use vstd::prelude::*;

use crate::downloader::texts;
use crate::types::{same_text, text_of};

verus! {

/// The parts of a parsed address that tell whether it points to a video.
#[derive(Debug, PartialEq, Eq)]
pub struct UrlParts {
    /// The host, where it is a domain name.
    pub domain: Option<String>,
    /// The segments of the path, where the address has a path of segments.
    pub path_segments: Option<Vec<String>>,
    /// The decoded pairs of the query, in their order.
    pub query_pairs: Vec<(String, String)>,
}

/// The parts of an address as plain data.
pub struct UrlPartsView {
    pub domain: Option<Seq<char>>,
    pub path_segments: Option<Seq<Seq<char>>>,
    pub query_pairs: Seq<(Seq<char>, Seq<char>)>,
}

/// The pairs of a query as plain data.
pub open spec fn pairs_of(pairs: Seq<(String, String)>) -> Seq<(Seq<char>, Seq<char>)> {
    pairs.map_values(|pair: (String, String)| (pair.0@, pair.1@))
}

impl View for UrlParts {
    type V = UrlPartsView;

    open spec fn view(&self) -> UrlPartsView {
        UrlPartsView {
            domain: text_of(self.domain),
            path_segments: match self.path_segments {
                Some(segments) => Some(texts(segments@)),
                None => None,
            },
            query_pairs: pairs_of(self.query_pairs@),
        }
    }
}

/// What the `url` crate makes of a text: the parts of the address it parses
/// to, or `None` where it does not parse as an absolute address.
pub uninterp spec fn parsed_url(input: Seq<char>) -> Option<UrlPartsView>;

#[verifier::external_type_specification]
#[verifier::external_body]
pub struct ExParseError(url::ParseError);

/// `Url::parse` of the `url` crate, and of the address it gives
/// `Url::domain`, `Url::path_segments` and `Url::query_pairs`, each copied
/// out as it is. Parsing depends on the text alone, so its outcome has a
/// name, `parsed_url`; nothing more is claimed of it.
#[verifier::external_body]
fn parse_url(input: &str) -> (parsed: Result<UrlParts, url::ParseError>)
    ensures
        match parsed {
            Ok(parts) => parsed_url(input@) == Some(parts@),
            Err(_) => parsed_url(input@) is None,
        },
{
    let address = url::Url::parse(input)?;
    Ok(
        UrlParts {
            domain: address.domain().map(|d| d.to_string()),
            path_segments: address.path_segments().map(|s| s.map(|p| p.to_string()).collect()),
            query_pairs: address.query_pairs().map(|(k, v)| (k.into_owned(), v.into_owned())).collect(),
        },
    )
}

/// Why no video could be looked for in a text.
#[derive(Debug)]
pub enum YoutubeError {
    /// The text is no absolute address.
    InvalidUrl(url::ParseError),
}

/// Whether the host is one under which YouTube serves videos.
pub open spec fn is_youtube_domain(domain: Option<Seq<char>>) -> bool {
    match domain {
        Some(name) => name == "youtube.com"@ || name == "www.youtube.com"@ || name == "m.youtube.com"@
            || name == "www.m.youtube.com"@ || name == "music.youtube.com"@,
        None => false,
    }
}

/// Whether the path begins with the segment `watch`.
pub open spec fn has_watch_path(path_segments: Option<Seq<Seq<char>>>) -> bool {
    match path_segments {
        Some(segments) => segments.len() > 0 && segments[0] == "watch"@,
        None => false,
    }
}

/// The value of the first pair with the given key.
pub open spec fn first_value(pairs: Seq<(Seq<char>, Seq<char>)>, key: Seq<char>) -> Option<Seq<char>>
    decreases pairs.len(),
{
    if pairs.len() == 0 {
        None
    } else if pairs[0].0 == key {
        Some(pairs[0].1)
    } else {
        first_value(pairs.drop_first(), key)
    }
}

/// The video that an address points to: the first `v` of its query, if it
/// is a YouTube address whose path begins with `watch`.
pub open spec fn video_id(parts: UrlPartsView) -> Option<Seq<char>> {
    if is_youtube_domain(parts.domain) && has_watch_path(parts.path_segments) {
        first_value(parts.query_pairs, "v"@)
    } else {
        None
    }
}

fn domain_is_youtube(domain: &Option<String>) -> (known: bool)
    ensures
        known == is_youtube_domain(text_of(*domain)),
{
    match domain {
        Some(name) => {
            let name = name.as_str();
            same_text(name, "youtube.com") || same_text(name, "www.youtube.com") || same_text(
                name,
                "m.youtube.com",
            ) || same_text(name, "www.m.youtube.com") || same_text(name, "music.youtube.com")
        },
        None => false,
    }
}

fn path_is_watch(path_segments: &Option<Vec<String>>) -> (watch: bool)
    ensures
        watch == has_watch_path(
            match *path_segments {
                Some(segments) => Some(texts(segments@)),
                None => None,
            },
        ),
{
    match path_segments {
        Some(segments) => segments.len() > 0 && same_text(segments[0].as_str(), "watch"),
        None => false,
    }
}

fn find_value(pairs: &Vec<(String, String)>, key: &str) -> (value: Option<String>)
    ensures
        text_of(value) == first_value(pairs_of(pairs@), key@),
{
    let mut i: usize = 0;
    assert(pairs_of(pairs@).skip(0) =~= pairs_of(pairs@));
    while i < pairs.len()
        invariant
            i <= pairs.len(),
            first_value(pairs_of(pairs@), key@) == first_value(pairs_of(pairs@).skip(i as int), key@),
        decreases pairs.len() - i,
    {
        assert(pairs_of(pairs@).skip(i as int).drop_first() =~= pairs_of(pairs@).skip(i + 1));
        if same_text(pairs[i].0.as_str(), key) {
            return Some(pairs[i].1.clone());
        }
        i += 1;
    }
    None
}

/// Tells which video the parts of an address point to.
pub fn video_id_from_parts(parts: &UrlParts) -> (id: Option<String>)
    ensures
        text_of(id) == video_id(parts@),
{
    if domain_is_youtube(&parts.domain) && path_is_watch(&parts.path_segments) {
        find_value(&parts.query_pairs, "v")
    } else {
        None
    }
}

/// Tells which video an address points to. A text that is no absolute
/// address is an error; an address that points to no video gives `None`.
pub fn get_youtube_video_id(url: &str) -> (id: Result<Option<String>, YoutubeError>)
    ensures
        match id {
            Ok(found) => parsed_url(url@) is Some && text_of(found) == video_id(
                parsed_url(url@)->Some_0,
            ),
            Err(_) => parsed_url(url@) is None,
        },
{
    match parse_url(url) {
        Ok(parts) => Ok(video_id_from_parts(&parts)),
        Err(cause) => Err(YoutubeError::InvalidUrl(cause)),
    }
}

} // verus!
