//! Aggregations over a window, in the form in which the server reads them.
use crate::text::blank;
use vstd::prelude::*;

verus! {

/// The aggregation `function(field)`.
pub open spec fn aggregation(function: Seq<char>, field: Seq<char>) -> Seq<char> {
    function + "("@ + field + ")"@
}

fn apply(function: &str, field: &str) -> (r: String)
    ensures
        r@ == aggregation(function@, field@),
{
    function.to_owned().concat("(").concat(field).concat(")")
}

/// The number of events.
pub fn count() -> (r: String)
    ensures
        r@ == "count()"@,
{
    "count()".to_owned()
}

/// The sum of a numeric field.
pub fn sum(field: &str) -> (r: String)
    requires
        !blank(field@),
    ensures
        r@ == aggregation("sum"@, field@),
{
    apply("sum", field)
}

/// The average of a numeric field.
pub fn avg(field: &str) -> (r: String)
    requires
        !blank(field@),
    ensures
        r@ == aggregation("avg"@, field@),
{
    apply("avg", field)
}

/// The least value of a numeric field.
pub fn min(field: &str) -> (r: String)
    requires
        !blank(field@),
    ensures
        r@ == aggregation("min"@, field@),
{
    apply("min", field)
}

/// The greatest value of a numeric field.
pub fn max(field: &str) -> (r: String)
    requires
        !blank(field@),
    ensures
        r@ == aggregation("max"@, field@),
{
    apply("max", field)
}

/// The list of all values of a field.
pub fn collect_list(field: &str) -> (r: String)
    requires
        !blank(field@),
    ensures
        r@ == aggregation("collect_list"@, field@),
{
    apply("collect_list", field)
}

/// The number of distinct values of a field.
pub fn distinct_count(field: &str) -> (r: String)
    requires
        !blank(field@),
    ensures
        r@ == aggregation("distinct_count"@, field@),
{
    apply("distinct_count", field)
}

} // verus!
