//! What the providers fail with.

use datafusion::arrow::error::ArrowError;
use vstd::prelude::*;

verus! {

/// Why a provider could not be built, or could not plan an operation.
#[derive(Debug)]
pub enum ProviderError {
    /// The operation is one that the provider does not offer.
    NotImplemented(String),
    /// A setting of the session or of the table is unusable.
    Configuration(String),
    /// The request does not fit the table.
    Execution(String),
    /// A projection names a column that the schema does not have.
    Arrow(ArrowError),
    /// The catalog could not load the table, or its schema is unusable.
    External(iceberg::Error),
}

/// The text that a request for an absent snapshot is answered with.
pub open spec fn snapshot_not_found_text(snapshot_id: int, table_name: Seq<char>) -> Seq<char> {
    "snapshot id "@ + crate::text::integer_text(snapshot_id) + " not found in table "@ + table_name
}

/// The answer to a request for a snapshot that the table does not have.
pub fn snapshot_not_found(snapshot_id: i64, table_name: &str) -> (error: ProviderError)
    ensures
        error matches ProviderError::Execution(text) && text@ == snapshot_not_found_text(
            snapshot_id as int,
            table_name@,
        ),
{
    let mut text = "snapshot id ".to_owned();
    text.append(crate::text::integer(snapshot_id).as_str());
    text.append(" not found in table ");
    text.append(table_name);
    ProviderError::Execution(text)
}

} // verus!
