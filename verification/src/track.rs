//! A queued or playing audio item and its display metadata.

use vstd::prelude::*;

verus! {

/// One queued or playing audio item.  The duration hint counts whole
/// seconds; an absent hint (or the zero sentinel) marks a live or
/// indefinite stream.  The elapsed position is not stored here: it is
/// queried live from the voice transport and handed in as a plain value.
pub struct Track {
    pub title: String,
    pub url: Option<String>,
    pub thumbnail: Option<String>,
    pub duration_secs: Option<u64>,
}

/// The mathematical value of a track: its strings as character sequences.
pub ghost struct TrackModel {
    pub title: Seq<char>,
    pub url: Option<Seq<char>>,
    pub thumbnail: Option<Seq<char>>,
    pub duration_secs: Option<u64>,
}

impl View for Track {
    type V = TrackModel;

    open spec fn view(&self) -> TrackModel {
        TrackModel {
            title: self.title@,
            url: match self.url {
                Some(u) => Some(u@),
                None => None,
            },
            thumbnail: match self.thumbnail {
                Some(t) => Some(t@),
                None => None,
            },
            duration_secs: self.duration_secs,
        }
    }
}

/// A copy of an optional string, equal in value to what it copies.
pub fn clone_opt_string(s: &Option<String>) -> (r: Option<String>)
    ensures
        match (r, s) {
            (Some(a), Some(b)) => a@ == b@,
            (None, None) => true,
            _ => false,
        },
{
    match s {
        Some(v) => Some(v.clone()),
        None => None,
    }
}

impl Track {
    /// A copy of this track, equal to it in value.
    pub fn duplicate(&self) -> (r: Track)
        ensures
            r@ == self@,
    {
        Track {
            title: self.title.clone(),
            url: clone_opt_string(&self.url),
            thumbnail: clone_opt_string(&self.thumbnail),
            duration_secs: self.duration_secs,
        }
    }
}

} // verus!
