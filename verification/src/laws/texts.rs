//! What holds of the texts in the answers of the providers.

use vstd::prelude::*;

use crate::error::ProviderError;
use crate::insert::InsertOp;

verus! {

/// The number that a row of decimal digits stands for.
pub open spec fn decimal_value(digits: Seq<char>) -> int
    decreases digits.len(),
{
    if digits.len() == 0 {
        0
    } else {
        10 * decimal_value(digits.drop_last()) + (digits.last() as int - '0' as int)
    }
}

/// Whether `text` is a number in decimal: at least one digit, and no zero in front of others.
pub open spec fn is_decimal(text: Seq<char>) -> bool {
    &&& text.len() > 0
    &&& forall|i: int| #![trigger text[i]]
        0 <= i < text.len() ==> '0' as int <= text[i] as int <= '9' as int
    &&& text.len() > 1 ==> text[0] != '0'
}

/// A natural number is written in decimal.
pub proof fn naturals_are_written_in_decimal(n: nat)
    ensures
        is_decimal(crate::text::natural_text(n)),
        decimal_value(crate::text::natural_text(n)) == n,
        crate::text::natural_text(n)[0] == '0' <==> n == 0,
    decreases n,
{
    let text = crate::text::natural_text(n);
    assert(decimal_value(Seq::<char>::empty()) == 0);
    if n < 10 {
        assert(text.drop_last() =~= Seq::<char>::empty());
    } else {
        naturals_are_written_in_decimal(n / 10);
        assert(text.drop_last() =~= crate::text::natural_text(n / 10));
    }
}

/// An integer is written in decimal, with a minus sign in front where it is negative.
pub proof fn integers_are_written_in_decimal(n: i64, text: String)
    requires
        call_ensures(crate::text::integer, (n,), text),
    ensures
        n >= 0 ==> is_decimal(text@) && decimal_value(text@) == n,
        n < 0 ==> {
            let digits = text@.skip(1);
            &&& text@.len() > 1
            &&& text@[0] == '-'
            &&& is_decimal(digits)
            &&& decimal_value(digits) == -n
        },
{
    reveal_strlit("-");
    if n >= 0 {
        naturals_are_written_in_decimal(n as nat);
    } else {
        naturals_are_written_in_decimal((-n) as nat);
        assert(text@.skip(1) =~= crate::text::natural_text((-n) as nat));
    }
}

/// The answer about a snapshot that is not there gives its id and the name of the table.
pub proof fn missing_snapshots_are_named(
    snapshot_id: i64,
    number: String,
    table_name: &str,
    error: ProviderError,
)
    requires
        call_ensures(crate::text::integer, (snapshot_id,), number),
        call_ensures(crate::error::snapshot_not_found, (snapshot_id, table_name), error),
    ensures
        error matches ProviderError::Execution(text) && text@ == "snapshot id "@ + number@
            + " not found in table "@ + table_name@,
{
}

/// Each insert operation has its own name.
pub proof fn insert_operations_are_named(op: InsertOp, name: &'static str)
    requires
        call_ensures(InsertOp::name, (&op,), name),
    ensures
        op is Append ==> name@ == "Insert Into"@,
        op is Overwrite ==> name@ == "Insert Overwrite"@,
        op is Replace ==> name@ == "Replace Into"@,
{
}

/// Of the insert operations only appends get through; the answer to another gives its name.
pub proof fn only_appends_get_through(
    op: InsertOp,
    name: &'static str,
    checked: Result<(), ProviderError>,
)
    requires
        call_ensures(InsertOp::name, (&op,), name),
        call_ensures(crate::insert::check_insert_op, (op,), checked),
    ensures
        checked is Ok <==> op is Append,
        checked matches Err(error) ==> (error matches ProviderError::NotImplemented(text) && text@
            == "IcebergTableProvider supports only append inserts, got "@ + name@),
{
}

/// The answer to an unusable value of the fanout property names the property and says what is
/// wrong with the value.
pub proof fn unusable_fanout_values_are_explained(detail: &str, error: ProviderError)
    requires
        call_ensures(crate::insert::invalid_fanout, (detail,), error),
    ensures
        error matches ProviderError::Configuration(text) && text@ == "Invalid value for "@
            + "write.datafusion.fanout.enabled"@ + ", expected 'true' or 'false': "@ + detail@,
{
}

} // verus!
