use vstd::prelude::*;

verus! {

/// The failures that the table reports to the query engine.
///
/// Each kind calls for its own recovery, so they are never merged into one.
#[derive(Debug)]
pub enum TableError {
    /// The caller supplied scan parameters, which the table owns itself.
    Configuration(String),
    /// The connection could not be opened or broke while streaming.
    Transport(String),
    /// The schema probe produced no response at all.
    EmptyStream,
    /// A response arrived without an encoded dataframe.
    MissingPayload,
    /// The encoded dataframe of a response could not be decoded.
    Decode(String),
    /// The host executor could not schedule or join the asynchronous work.
    RuntimeScheduling(String),
}

} // verus!
