//! Core of a streaming audio player: a sliding byte-buffer window over a
//! remote resource, a random-access reader that services that window through
//! background range fetches, and a decode stage that turns reader bytes into
//! PCM sample chunks with generation-tagged cancellation.
//!
//! The library holds the data structures and the decision logic, each with a
//! contract. The surrounding process (HTTP requests, threads, channels, the
//! audio sink) performs the actions these functions plan and hands the
//! outcomes back.

pub mod buffer;
pub mod cache;
pub mod data_source;
pub mod error;
pub mod events;
pub mod pcm;
pub mod progress;
pub mod traits;
