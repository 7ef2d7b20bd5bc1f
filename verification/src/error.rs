//! The errors of uploading, downloading and reconstructing files.

use vstd::prelude::*;

verus! {

/// A file reconstruction failed.
#[derive(Debug, PartialEq, Eq)]
pub enum FileReconstructionError {
    /// A task of the reconstruction did not run to its end, or reported this failure.
    InternalError(String),
    /// The writer of the reconstructed data refused an operation or failed.
    InternalWriterError(String),
}

/// What a [`FileReconstructionError`] says: its variant and its message.
pub enum ReconstructionFailure {
    InternalError(Seq<char>),
    InternalWriterError(Seq<char>),
}

impl View for FileReconstructionError {
    type V = ReconstructionFailure;

    open spec fn view(&self) -> ReconstructionFailure {
        match *self {
            FileReconstructionError::InternalError(message) =>
                ReconstructionFailure::InternalError(message@),
            FileReconstructionError::InternalWriterError(message) =>
                ReconstructionFailure::InternalWriterError(message@),
        }
    }
}

/// A string is not the hexadecimal form of a Merkle hash.
#[derive(Debug, Clone, Copy, PartialEq, Eq)]
pub struct DataHashHexParseError;

/// Uploading or downloading a file failed.
#[derive(Debug, PartialEq, Eq)]
pub enum DataProcessingError {
    /// The file's hash could not be read.
    HashStringParsingFailure(DataHashHexParseError),
    /// Anything else, described by a message.
    InternalError(String),
}

/// What a [`DataProcessingError`] says: its variant and its message.
pub enum ProcessingFailure {
    HashStringParsingFailure(DataHashHexParseError),
    InternalError(Seq<char>),
}

impl View for DataProcessingError {
    type V = ProcessingFailure;

    open spec fn view(&self) -> ProcessingFailure {
        match *self {
            DataProcessingError::HashStringParsingFailure(error) =>
                ProcessingFailure::HashStringParsingFailure(error),
            DataProcessingError::InternalError(message) =>
                ProcessingFailure::InternalError(message@),
        }
    }
}

} // verus!
