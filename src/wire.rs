//! The record batches that the table hands to the query engine, as `arrow`
//! defines them.
use arrow::array::RecordBatch;
use arrow::datatypes::Schema;
use vstd::prelude::*;

verus! {

/// A decoded record batch, kept whole for the query engine.
///
/// Verus cannot be given `RecordBatch` as a declared outside type (its
/// `Index<&str>` impl yields a `dyn Array`), so the batch is held here,
/// out of the verifier's sight.
#[derive(Debug)]
#[verifier::external_body]
pub struct DecodedBatch {
    pub batch: RecordBatch,
}

#[verifier::external_type_specification]
#[verifier::external_body]
pub struct ExSchema(Schema);

} // verus!
