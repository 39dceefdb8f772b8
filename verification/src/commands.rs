//! The commands of the guild's members, from typed arguments to the reply.

use crate::music::MusicParams;
use crate::notice::{describe_current, Notice};
use crate::text::{decimal, decimal_string};
use crate::track::is_http_locator;
use crate::volume::in_unit_range;
use vstd::prelude::*;

verus! {

/// A volume as a command carries it: the bit pattern of the fraction, and
/// the caller's rendering of it in percent.
#[derive(Debug)]
pub struct VolumeRequest {
    pub bits: u32,
    pub percent: String,
}

/// The queue as it is shown: a heading, the sentence on the track that
/// plays, and the pending tracks, each with its place in line.
#[derive(Debug)]
pub struct Listing {
    pub heading: String,
    pub description: String,
    pub entries: Vec<(String, String)>,
}

/// What a listing shows of a state.
pub open spec fn lists<H>(listing: Listing, params: MusicParams<H>) -> bool {
    &&& listing.heading@ == "Current Queue"@
    &&& listing.description@ == describe_current(params@.snapshot().0)
    &&& listing.entries@.len() == params@.queue.len()
    &&& forall|i: int|
        0 <= i < listing.entries@.len() ==> (#[trigger] listing.entries@[i]).0@ == decimal(
            (i + 1) as nat,
        ) && listing.entries@[i].1@ == params@.queue[i]
}

/// Requests a track. A locator that is missing, or under neither the http
/// nor the https scheme, is answered with `UrlInvalid` and changes nothing;
/// any other joins the end of the queue and is answered with `Added`.
pub fn play<H>(params: &mut MusicParams<H>, arg: Option<String>) -> (notice: Notice)
    ensures
        match arg {
            Some(uri) => final(params)@ == old(params)@.enqueue(uri@) && if is_http_locator(uri@) {
                notice matches Notice::Added { uri: shown } && shown@ == uri@
            } else {
                notice is UrlInvalid
            },
            None => final(params)@ == old(params)@ && notice is UrlInvalid,
        },
{
    match arg {
        None => Notice::UrlInvalid,
        Some(uri) => {
            let shown = uri.clone();
            match params.enqueue(uri) {
                Ok(()) => Notice::Added { uri: shown },
                Err(e) => Notice::of_validation(e),
            }
        },
    }
}

/// Ends playback and empties the queue.
pub fn stop<H>(params: &mut MusicParams<H>) -> (notice: Notice)
    ensures
        final(params)@ == old(params)@.stop(),
        notice is Stopped,
{
    params.stop();
    Notice::Stopped
}

/// Ends playback of the present track; the queue stays.
pub fn skip<H>(params: &mut MusicParams<H>) -> (notice: Notice)
    ensures
        final(params)@ == old(params)@.skip(),
        notice is Skipping,
{
    params.skip();
    Notice::Skipping
}

/// Sets the volume. A volume that is missing or lies outside the interval
/// from zero to one is answered with `VolumeInvalid` and changes nothing; any
/// other takes effect and is answered with `VolumeChanging`.
pub fn volume<H>(params: &mut MusicParams<H>, arg: Option<VolumeRequest>) -> (notice: Notice)
    ensures
        match arg {
            Some(request) => final(params)@ == old(params)@.set_volume(request.bits)
                && if in_unit_range(request.bits) {
                notice matches Notice::VolumeChanging { percent } && percent@ == request.percent@
            } else {
                notice is VolumeInvalid
            },
            None => final(params)@ == old(params)@ && notice is VolumeInvalid,
        },
{
    match arg {
        None => Notice::VolumeInvalid,
        Some(request) => match params.set_volume(request.bits) {
            Ok(()) => Notice::VolumeChanging { percent: request.percent },
            Err(e) => Notice::of_validation(e),
        },
    }
}

/// Shows the queue: the track that plays and the pending ones, numbered
/// from one.
pub fn queue<H>(params: &MusicParams<H>) -> (listing: Listing)
    ensures
        lists(listing, *params),
{
    let snapshot = params.snapshot();
    let description = snapshot.description();
    let pending = snapshot.pending;
    let ghost shown = pending.deep_view();
    let mut entries: Vec<(String, String)> = Vec::new();
    let mut i: usize = 0;
    while i < pending.len()
        invariant
            i <= pending@.len(),
            pending.deep_view() == shown,
            entries@.len() == i,
            forall|j: int|
                0 <= j < i ==> (#[trigger] entries@[j]).0@ == decimal((j + 1) as nat)
                    && entries@[j].1@ == shown[j],
        decreases pending@.len() - i,
    {
        let uri = pending[i].clone();
        entries.push((decimal_string((i + 1) as u64), uri));
        i += 1;
    }
    Listing { heading: String::from_str("Current Queue"), description, entries }
}

} // verus!
