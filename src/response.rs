use std::sync::Arc;

use arrow::datatypes::Schema;
use vstd::prelude::*;

use crate::wire::DecodedBatch;

verus! {

/// The dataframe of a response, decoded: the record batch and its schema.
pub struct DecodedPart {
    /// The schema of `batch`.
    pub schema: Arc<Schema>,
    /// The rows.
    pub batch: DecodedBatch,
}

/// One message of the search service's response stream, its dataframe
/// decoded on arrival.
pub struct SearchDatasetResponse {
    /// `None` when the message carried no dataframe; otherwise what decoding
    /// the dataframe gave: the part, or the decoder's error text.
    pub data: Option<Result<DecodedPart, String>>,
}

/// What the caller got when it asked a response stream for its next message:
/// `None` once the stream has ended, the transport's error text when the
/// connection broke.
pub type StreamItem = Option<Result<SearchDatasetResponse, String>>;

} // verus!
