//! Progressive-installation (chunk/download) message shapes.

use vstd::prelude::*;

verus! {

/// Asks whether the given chunks of an item are installed.
#[derive(Debug, Clone, PartialEq)]
pub struct AreChunksInstalled {
    pub item_id: String,
    pub chunk_ids: Vec<i32>,
}

/// Whether the queried chunks are installed.
#[derive(Debug, Clone, PartialEq)]
pub struct AreChunksInstalledResponse {
    pub item_id: String,
    pub installed: bool,
    pub chunk_ids: Vec<i32>,
}

/// The download state of one chunk.
#[derive(Debug, Clone, Copy, PartialEq, Eq, Structural)]
pub enum ChunkState {
    Unknown,
    Paused,
    Queued,
    Error,
    Downloading,
    Installing,
    Installed,
    Busy,
}

/// How a chunk is prioritised.
#[derive(Debug, Clone, Copy, PartialEq, Eq, Structural)]
pub enum ChunkType {
    Unknown,
    Required,
    Recommended,
    Normal,
    Ondemand,
}

/// Creates a chunk from a list of files.
#[derive(Debug, Clone, PartialEq)]
pub struct CreateChunk {
    pub item_id: String,
    pub files: Vec<String>,
}

/// The identifier of a newly created chunk.
#[derive(Debug, Clone, PartialEq)]
pub struct CreateChunkResponse {
    pub chunk_id: i32,
}

/// Requests the chunk priority order of an item.
#[derive(Debug, Clone, PartialEq)]
pub struct GetChunkPriority {
    pub item_id: String,
}

/// The chunk priority order of an item.
#[derive(Debug, Clone, PartialEq)]
pub struct GetChunkPriorityResponse {
    pub item_id: String,
    pub chunk_ids: Vec<i32>,
}

/// Asks whether a file of an item is downloaded.
#[derive(Debug, Clone, PartialEq)]
pub struct IsFileDownloaded {
    pub item_id: String,
    pub filepath: String,
}

/// Whether the queried file is downloaded.
#[derive(Debug, Clone, PartialEq)]
pub struct IsFileDownloadedResponse {
    pub item_id: String,
    pub filepath: String,
    pub downloaded: bool,
}

/// Asks whether progressive installation is available for an item.
#[derive(Debug, Clone, PartialEq)]
pub struct IsProgressiveInstallationAvailable {
    pub item_id: String,
}

/// Whether progressive installation is available.
#[derive(Debug, Clone, PartialEq)]
pub struct IsProgressiveInstallationAvailableResponse {
    pub item_id: String,
    pub available: bool,
}

/// Requests the files of one chunk.
#[derive(Debug, Clone, PartialEq)]
pub struct QueryChunkFiles {
    pub item_id: String,
    pub chunk_id: i32,
}

/// The files of the queried chunk.
#[derive(Debug, Clone, PartialEq)]
pub struct QueryChunkFilesResponse {
    pub files: Vec<String>,
}

/// Requests the status of an item's chunks.
#[derive(Debug, Clone, PartialEq)]
pub struct QueryChunkStatus {
    pub item_id: String,
}

/// Reorders the chunk priorities of an item.
#[derive(Debug, Clone, PartialEq)]
pub struct SetChunkPriority {
    pub item_id: String,
    pub chunk_ids: Vec<i32>,
}

} // verus!
