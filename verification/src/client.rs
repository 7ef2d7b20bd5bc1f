//! A client: the configuration that uploads and downloads share.

use std::sync::Arc;

use vstd::prelude::*;

use crate::backend::Backend;
use crate::error::{DataHashHexParseError, DataProcessingError};
use crate::file_info::XetFileInfo;
use crate::file_range::FileRange;
use crate::reader::{ReaderState, ReaderView, XetReader};
use crate::upload::UploadRequest;

verus! {

/// Everything that a configuration is built from.
pub struct ConnectionRequest<B: Backend> {
    pub endpoint: String,
    pub token_info: Option<(String, u64)>,
    pub token_refresher: Option<B::TokenRefresher>,
    pub user_agent: String,
}

/// A client that holds shared configuration.
///
/// A single client serves any number of uploads and downloads, which avoids
/// building the configuration again.
pub struct XetClient<B: Backend> {
    config: Arc<B::Config>,
}

impl<B: Backend> View for XetClient<B> {
    type V = Arc<B::Config>;

    closed spec fn view(&self) -> Arc<B::Config> {
        self.config
    }
}

impl<B: Backend> XetClient<B> {
    /// Returns what the configuration of a client is built from: the
    /// connection parameters, with `default_endpoint` where no endpoint is
    /// given.
    pub fn connection(
        endpoint: Option<String>,
        default_endpoint: String,
        token_info: Option<(String, u64)>,
        token_refresher: Option<B::TokenRefresher>,
        user_agent: String,
    ) -> (request: ConnectionRequest<B>)
        ensures
            request == (ConnectionRequest::<B> {
                endpoint: match endpoint {
                    Some(endpoint) => endpoint,
                    None => default_endpoint,
                },
                token_info,
                token_refresher,
                user_agent,
            }),
    {
        ConnectionRequest {
            endpoint: endpoint.unwrap_or(default_endpoint),
            token_info,
            token_refresher,
            user_agent,
        }
    }

    /// Creates a client from the result of building its configuration.
    pub fn new(config: Result<B::Config, DataProcessingError>) -> (client: Result<
        Self,
        DataProcessingError,
    >)
        ensures
            match config {
                Ok(config) => client matches Ok(client) && *client@ == config,
                Err(error) => client == Err::<Self, _>(error),
            },
    {
        match config {
            Ok(config) => Ok(XetClient { config: Arc::new(config) }),
            Err(error) => Err(error),
        }
    }

    /// Creates a reader that will download a single file.
    ///
    /// `merkle_hash` is the result of parsing the hash of `file_info`.
    pub fn read(
        &self,
        file_info: XetFileInfo,
        merkle_hash: Result<B::MerkleHash, DataHashHexParseError>,
        file_range: Option<FileRange>,
        progress_updater: Option<B::ProgressUpdater>,
        stream_buffer_size: usize,
    ) -> (reader: Result<XetReader<B>, DataProcessingError>)
        ensures
            match merkle_hash {
                Ok(merkle_hash) => reader matches Ok(reader) && reader@ == (ReaderView::<B> {
                    buffer_size: stream_buffer_size,
                    merkle_hash,
                    file_hash: file_info@.hash,
                    file_range,
                    progress_updater,
                    state: ReaderState::Init { config: self@ },
                }),
                Err(error) => reader matches Err(failure) && failure
                    == DataProcessingError::HashStringParsingFailure(error),
            },
    {
        XetReader::new(
            self.config.clone(),
            file_info,
            merkle_hash,
            file_range,
            progress_updater,
            stream_buffer_size,
        )
    }

    /// Returns what an upload of a single file is opened with. The upload's
    /// writer is then [`XetWriter::new`](crate::upload::XetWriter::new).
    pub fn write(
        &self,
        progress_updater: Option<B::ProgressUpdater>,
        name: Option<String>,
        size: u64,
    ) -> (request: UploadRequest<B>)
        ensures
            request == (UploadRequest::<B> { config: self@, progress_updater, name, size }),
    {
        UploadRequest { config: self.config.clone(), progress_updater, name, size }
    }
}

} // verus!
