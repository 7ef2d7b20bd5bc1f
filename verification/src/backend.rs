//! The values that a transfer carries for its surroundings without looking
//! inside them.

use vstd::prelude::*;

verus! {

/// Names the types of the surroundings that readers, writers and clients hold
/// and hand on.
pub trait Backend {
    /// The configuration that clients share with what they create.
    type Config;

    /// A parsed Merkle hash.
    type MerkleHash: Copy;

    /// Obtains fresh access tokens.
    type TokenRefresher;

    /// Reports the progress of a transfer.
    type ProgressUpdater;

    /// An open upload session.
    type Session;

    /// Cleans and uploads the data of one file within a session.
    type Cleaner;

    /// The receiving end of a download's channel of chunks.
    type Receiver;

    /// A handle on a running download task.
    type DownloadTask;
}

} // verus!
