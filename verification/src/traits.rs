//! The interface the streaming layer consumes from the catalog client.

use vstd::prelude::*;

use crate::error::AudioError;

verus! {

/// A source of streaming URLs: given a track id, resolve the URL its audio
/// can be fetched from. Implemented outside the core by the catalog client.
pub trait AudioSource {
    /// Resolve the streaming URL for `track_id`.
    fn get_stream_url(&self, track_id: &str) -> Result<String, AudioError>;
}

} // verus!
