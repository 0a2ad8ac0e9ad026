//! A queryable table over a remote, streamed dataset search.
//!
//! The library decides everything the bridge between the search service and
//! a query engine has to decide: which request to send for the schema probe
//! and for a full scan, how each streamed response becomes a batch or a typed
//! error, when the cached schema makes a probe unnecessary, and how a scan
//! moves from one state to the next. Issuing the calls, awaiting the
//! streams and decoding each message's dataframe as it arrives is left to
//! the caller.
mod auth;
mod error;
mod provider;
mod request;
mod response;
mod scan;
mod spatial;
mod wire;

pub use auth::{
    all_metadata_chars, authorization_post, equal_trims_give_equal_credentials, is_metadata_char,
    is_trim_of, is_white_space, lemma_trim_unique, token_is_sendable, AsciiMetadata,
    AuthDecorator, AuthError, Credential, Jwt, AUTHORIZATION_KEY, TOKEN_PREFIX,
};
pub use error::TableError;
pub use provider::{
    empty_probe_stream_fails, fetch_schema_post, probe_asks_for_zero_rows,
    probe_depends_on_first_message_only, probe_of, probe_result, probe_without_payload_fails,
    response_result, schema_is_probed_once, SearchResultsTableProvider,
};
pub use request::{ScanParameters, SearchDatasetRequest};
pub use response::{DecodedPart, SearchDatasetResponse, StreamItem};
pub use scan::{
    is_scan_run, next_batch_post, pull_result, scan_stops_at_missing_payload,
    scans_agree_on_each_message, scans_open_the_same_request, scans_replay_identically, BatchSequence, GrpcStreamToTable,
    ScanPhase,
};
pub use spatial::{AutoSizeUnit, EntityPath, ImageCounts, ImageKind};
pub use wire::DecodedBatch;
