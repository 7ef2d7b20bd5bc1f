//! Streaming upload and download of single files: what each side accepts,
//! forwards, yields and refuses.

pub mod backend;
pub mod background;
pub mod channel_writer;
pub mod chunk;
pub mod client;
pub mod error;
pub mod file_info;
pub mod file_range;
pub mod pointer_file;
pub mod pointer_reader;
pub mod reader;
pub mod reader_laws;
pub mod streaming_writer;
pub mod text;
pub mod transfer_calls;
pub mod upload;
pub mod writer_calls;
pub mod writer_laws;
