//! The schema that the query engine sees of a table.

use datafusion::arrow::datatypes::Schema as ArrowSchema;
use iceberg::spec::Schema;
use vstd::prelude::*;

use crate::error::ProviderError;
use crate::outside::schema_to_arrow_schema;

verus! {

/// Whether `error` answers a request that some data of the table makes impossible, with this
/// message.
pub open spec fn blames_the_table(error: ProviderError, message: Seq<char>) -> bool {
    &&& error matches ProviderError::External(cause)
    &&& crate::outside::says_invalid_data(crate::outside::error_contents(cause), message)
}

/// Whether `offered` is a fitting schema for the query engine: the one that `schema` converts
/// to, which has the same columns.
pub open spec fn shows(offered: ArrowSchema, schema: Schema) -> bool {
    &&& crate::outside::arrow_schema_of(schema) == Ok::<ArrowSchema, Seq<char>>(offered)
    &&& crate::outside::same_columns(
        crate::outside::schema_columns(schema),
        crate::outside::arrow_columns(offered),
    )
}

/// Makes the schema that the query engine sees.
pub fn to_arrow(schema: &Schema) -> (arrow: Result<ArrowSchema, ProviderError>)
    ensures
        match crate::outside::arrow_schema_of(*schema) {
            Ok(_) => arrow matches Ok(made) && shows(made, *schema),
            Err(message) => arrow matches Err(error) && blames_the_table(error, message),
        },
{
    match schema_to_arrow_schema(schema) {
        Ok(made) => Ok(made),
        Err(error) => Err(ProviderError::External(error)),
    }
}

} // verus!
