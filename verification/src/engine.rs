//! The boundary to the query engine.
//!
//! Everything in this module is believed, not proved: each function makes one
//! call into the engine, and its contract names the result of that call. The
//! engine's values are opaque to the verifier; only equality of named results
//! is reasoned about.

use datafusion::arrow::datatypes::DataType;
use datafusion::dataframe::DataFrame;
use datafusion::error::DataFusionError;
use datafusion::logical_expr::Expr;
use vstd::prelude::*;

use crate::schema::{CellType, TypeShape};

verus! {

/// A lazily evaluated table: a query plan bound to an engine session.
#[verifier::external_type_specification]
#[verifier::external_body]
pub struct ExDataFrame(DataFrame);

/// A logical expression over the columns of a table.
#[verifier::external_type_specification]
#[verifier::external_body]
pub struct ExExpr(Expr);

/// A declared column type.
#[verifier::external_type_specification]
#[verifier::external_body]
pub struct ExDataType(DataType);

/// Any failure the engine reports.
#[verifier::external_type_specification]
#[verifier::external_body]
pub struct ExDataFusionError(DataFusionError);

/// The names and declared types of a table's columns, in schema order.
pub uninterp spec fn schema_of(table: DataFrame) -> Seq<(Seq<char>, DataType)>;

/// Whether a declared type belongs to the integer, float or decimal family.
pub uninterp spec fn numeric_type(data_type: DataType) -> bool;

/// Whether a declared type belongs to the date, time, timestamp, duration or
/// interval family.
pub uninterp spec fn temporal_type(data_type: DataType) -> bool;

/// The shape of a declared type.
pub uninterp spec fn shape_of(data_type: DataType) -> TypeShape;

/// The engine type a summary cell of the given kind is cast to.
pub uninterp spec fn arrow_type_of(cell: CellType) -> DataType;

/// The text the engine renders an error as.
pub uninterp spec fn error_message(error: DataFusionError) -> Seq<char>;

/// A reference to the column with exactly this name.
pub uninterp spec fn column_expr(name: Seq<char>) -> Expr;

/// A text literal.
pub uninterp spec fn text_literal_expr(value: Seq<char>) -> Expr;

/// A 32-bit integer literal.
pub uninterp spec fn integer_literal_expr(value: i32) -> Expr;

/// `CAST(expr AS target)`.
pub uninterp spec fn cast_expr(expr: Expr, target: DataType) -> Expr;

/// `expr AS name`.
pub uninterp spec fn alias_expr(expr: Expr, name: Seq<char>) -> Expr;

/// `expr IS NULL`.
pub uninterp spec fn is_null_expr(expr: Expr) -> Expr;

/// `CASE WHEN condition THEN then ELSE otherwise END`.
pub uninterp spec fn case_expr(condition: Expr, then: Expr, otherwise: Expr) -> Expr;

/// `left / right`.
pub uninterp spec fn quotient_expr(left: Expr, right: Expr) -> Expr;

/// The number of elements of a list value.
pub uninterp spec fn list_length_expr(expr: Expr) -> Expr;

/// The number of characters of a text value.
pub uninterp spec fn text_length_expr(expr: Expr) -> Expr;

/// `count(expr)`.
pub uninterp spec fn count_expr(expr: Expr) -> Expr;

/// `sum(expr)`.
pub uninterp spec fn sum_expr(expr: Expr) -> Expr;

/// `avg(expr)`.
pub uninterp spec fn avg_expr(expr: Expr) -> Expr;

/// `stddev(expr)`.
pub uninterp spec fn stddev_expr(expr: Expr) -> Expr;

/// `min(expr)`.
pub uninterp spec fn min_expr(expr: Expr) -> Expr;

/// `max(expr)`.
pub uninterp spec fn max_expr(expr: Expr) -> Expr;

/// `median(expr)`.
pub uninterp spec fn median_expr(expr: Expr) -> Expr;

/// `approx_percentile_cont(expr, fraction)`, with a number of centroids
/// where one is given.
pub uninterp spec fn percentile_expr(expr: Expr, fraction: Expr, centroids: Option<Expr>) -> Expr;

/// The table that projects `exprs` out of `table`, or the planning error.
pub uninterp spec fn select_result(table: DataFrame, exprs: Seq<Expr>) -> Result<
    DataFrame,
    DataFusionError,
>;

/// The table that aggregates all rows of `table`, without grouping, into one
/// row of `exprs`, or the planning error.
pub uninterp spec fn aggregate_result(table: DataFrame, exprs: Seq<Expr>) -> Result<
    DataFrame,
    DataFusionError,
>;

/// The table that holds the rows of `upper` followed by those of `lower`, or
/// the planning error.
pub uninterp spec fn union_result(upper: DataFrame, lower: DataFrame) -> Result<
    DataFrame,
    DataFusionError,
>;

/// The table that holds the rows of `table` ordered by its column `name`
/// alone, in the given direction and null placement, or the planning error.
pub uninterp spec fn sort_by_column_result(
    table: DataFrame,
    name: Seq<char>,
    ascending: bool,
    nulls_first: bool,
) -> Result<DataFrame, DataFusionError>;

/// Reads the schema through `DataFrame::schema`: one pair of name and
/// declared type per column, in schema order.
#[verifier::external_body]
pub(crate) fn columns(table: &DataFrame) -> (out: Vec<(String, DataType)>)
    ensures
        out@.len() == schema_of(*table).len(),
        forall|i: int|
            0 <= i < out@.len() ==> (#[trigger] out@[i]).0@ == schema_of(*table)[i].0 && out@[i].1
                == schema_of(*table)[i].1,
{
    let fields = table.schema().fields().iter();
    fields.map(|f| (f.name().clone(), f.data_type().clone())).collect()
}

/// Calls `DataType::is_numeric`.
#[verifier::external_body]
pub(crate) fn is_numeric(data_type: &DataType) -> (yes: bool)
    ensures
        yes == numeric_type(*data_type),
{
    data_type.is_numeric()
}

/// Calls `DataType::is_temporal`.
#[verifier::external_body]
pub(crate) fn is_temporal(data_type: &DataType) -> (yes: bool)
    ensures
        yes == temporal_type(*data_type),
{
    data_type.is_temporal()
}

/// Tells the variants of `DataType` apart that the profiler treats
/// specially, one by one: text, bytes, booleans and the two list types.
/// Every other variant is plain.
#[verifier::external_body]
pub(crate) fn type_shape(data_type: &DataType) -> (shape: TypeShape)
    ensures
        shape == shape_of(*data_type),
{
    match data_type {
        DataType::Utf8 => TypeShape::Text,
        DataType::Binary => TypeShape::Binary,
        DataType::Boolean => TypeShape::Boolean,
        DataType::List(_) => TypeShape::List,
        DataType::LargeList(_) => TypeShape::LargeList,
        _ => TypeShape::Plain,
    }
}

/// Converts a cell kind to the `DataType` that stands for it.
#[verifier::external_body]
pub(crate) fn arrow_type(cell: CellType) -> (data_type: DataType)
    ensures
        data_type == arrow_type_of(cell),
{
    match cell {
        CellType::Float => DataType::Float64,
        CellType::Text => DataType::Utf8,
    }
}

/// Clones a `DataType`; the clone is the same type.
#[verifier::external_body]
pub(crate) fn clone_type(data_type: &DataType) -> (copy: DataType)
    ensures
        copy == *data_type,
{
    data_type.clone()
}

/// Renders a `DataFusionError` through its `Display` impl.
#[verifier::external_body]
pub(crate) fn error_text(error: &DataFusionError) -> (text: String)
    ensures
        text@ == error_message(*error),
{
    error.to_string()
}

/// Calls `ident`: an unqualified column reference that keeps the name as it
/// is written.
#[verifier::external_body]
pub(crate) fn column(name: &str) -> (expr: Expr)
    ensures
        expr == column_expr(name@),
{
    datafusion::logical_expr::ident(name)
}

/// Calls `lit` on a string slice.
#[verifier::external_body]
pub(crate) fn text_literal(value: &str) -> (expr: Expr)
    ensures
        expr == text_literal_expr(value@),
{
    datafusion::logical_expr::lit(value)
}

/// Calls `lit` on an `i32`.
#[verifier::external_body]
pub(crate) fn integer_literal(value: i32) -> (expr: Expr)
    ensures
        expr == integer_literal_expr(value),
{
    datafusion::logical_expr::lit(value)
}

/// Calls `cast`.
#[verifier::external_body]
pub(crate) fn cast_to(expr: Expr, target: DataType) -> (out: Expr)
    ensures
        out == cast_expr(expr, target),
{
    datafusion::logical_expr::cast(expr, target)
}

/// Calls `Expr::alias`.
#[verifier::external_body]
pub(crate) fn alias(expr: Expr, name: &str) -> (out: Expr)
    ensures
        out == alias_expr(expr, name@),
{
    expr.alias(name)
}

/// Calls `is_null`.
#[verifier::external_body]
pub(crate) fn is_null(expr: Expr) -> (out: Expr)
    ensures
        out == is_null_expr(expr),
{
    datafusion::logical_expr::is_null(expr)
}

/// Builds `Expr::Case` through `Case::new`, with no subject, one branch and
/// an else value.
#[verifier::external_body]
pub(crate) fn case_when(condition: Expr, then: Expr, otherwise: Expr) -> (out: Expr)
    ensures
        out == case_expr(condition, then, otherwise),
{
    let branch = (Box::new(condition), Box::new(then));
    Expr::Case(datafusion::logical_expr::Case::new(None, vec![branch], Some(Box::new(otherwise))))
}

/// Calls `binary_expr` with `Operator::Divide`.
#[verifier::external_body]
pub(crate) fn divide(left: Expr, right: Expr) -> (out: Expr)
    ensures
        out == quotient_expr(left, right),
{
    datafusion::logical_expr::binary_expr(left, datafusion::logical_expr::Operator::Divide, right)
}

/// Calls `array_length`.
#[verifier::external_body]
pub(crate) fn list_length(expr: Expr) -> (out: Expr)
    ensures
        out == list_length_expr(expr),
{
    datafusion::prelude::array_length(expr)
}

/// Calls `length`, the character length of a string.
#[verifier::external_body]
pub(crate) fn text_length(expr: Expr) -> (out: Expr)
    ensures
        out == text_length_expr(expr),
{
    datafusion::prelude::length(expr)
}

/// Calls the aggregate function `count`.
#[verifier::external_body]
pub(crate) fn count(expr: Expr) -> (out: Expr)
    ensures
        out == count_expr(expr),
{
    datafusion::functions_aggregate::expr_fn::count(expr)
}

/// Calls the aggregate function `sum`.
#[verifier::external_body]
pub(crate) fn sum(expr: Expr) -> (out: Expr)
    ensures
        out == sum_expr(expr),
{
    datafusion::functions_aggregate::expr_fn::sum(expr)
}

/// Calls the aggregate function `avg`.
#[verifier::external_body]
pub(crate) fn avg(expr: Expr) -> (out: Expr)
    ensures
        out == avg_expr(expr),
{
    datafusion::functions_aggregate::expr_fn::avg(expr)
}

/// Calls the aggregate function `stddev`.
#[verifier::external_body]
pub(crate) fn stddev(expr: Expr) -> (out: Expr)
    ensures
        out == stddev_expr(expr),
{
    datafusion::functions_aggregate::expr_fn::stddev(expr)
}

/// Calls the aggregate function `min`.
#[verifier::external_body]
pub(crate) fn min(expr: Expr) -> (out: Expr)
    ensures
        out == min_expr(expr),
{
    datafusion::functions_aggregate::expr_fn::min(expr)
}

/// Calls the aggregate function `max`.
#[verifier::external_body]
pub(crate) fn max(expr: Expr) -> (out: Expr)
    ensures
        out == max_expr(expr),
{
    datafusion::functions_aggregate::expr_fn::max(expr)
}

/// Calls the aggregate function `median`.
#[verifier::external_body]
pub(crate) fn median(expr: Expr) -> (out: Expr)
    ensures
        out == median_expr(expr),
{
    datafusion::functions_aggregate::expr_fn::median(expr)
}

/// Calls the aggregate function `approx_percentile_cont`.
#[verifier::external_body]
pub(crate) fn approx_percentile(expr: Expr, fraction: Expr, centroids: Option<Expr>) -> (out: Expr)
    ensures
        out == percentile_expr(expr, fraction, centroids),
{
    datafusion::functions_aggregate::expr_fn::approx_percentile_cont(expr, fraction, centroids)
}

/// Calls `DataFrame::select` on a clone of `table`.
#[verifier::external_body]
pub(crate) fn select(table: &DataFrame, exprs: Vec<Expr>) -> (out: Result<
    DataFrame,
    DataFusionError,
>)
    ensures
        out == select_result(*table, exprs@),
{
    table.clone().select(exprs)
}

/// Calls `DataFrame::aggregate` on a clone of `table`, with an empty list of
/// group expressions: the whole table is one group.
#[verifier::external_body]
pub(crate) fn aggregate(table: &DataFrame, exprs: Vec<Expr>) -> (out: Result<
    DataFrame,
    DataFusionError,
>)
    ensures
        out == aggregate_result(*table, exprs@),
{
    table.clone().aggregate(vec![], exprs)
}

/// Calls `DataFrame::union`.
#[verifier::external_body]
pub(crate) fn union(upper: DataFrame, lower: DataFrame) -> (out: Result<
    DataFrame,
    DataFusionError,
>)
    ensures
        out == union_result(upper, lower),
{
    upper.union(lower)
}

/// Calls `DataFrame::sort` with a single key: the column that `ident`
/// makes of `name`, given its direction and null placement by `Expr::sort`.
/// The key names one column, so the plan does not depend on the order in
/// which the engine walks the columns of a key.
#[verifier::external_body]
pub(crate) fn sort_by_column(
    table: DataFrame,
    name: &str,
    ascending: bool,
    nulls_first: bool,
) -> (out: Result<DataFrame, DataFusionError>)
    ensures
        out == sort_by_column_result(table, name@, ascending, nulls_first),
{
    table.sort(vec![datafusion::logical_expr::ident(name).sort(ascending, nulls_first)])
}

} // verus!
