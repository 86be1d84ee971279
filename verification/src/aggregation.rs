//! The aggregation runner: one ungrouped aggregate query per statistic, read
//! with tolerance for statistics that are undefined, and labelled with the
//! statistic's display name.

use datafusion::dataframe::DataFrame;
use datafusion::error::DataFusionError;
use datafusion::logical_expr::Expr;
use vstd::prelude::*;
use vstd::string::*;

use crate::aggregator::{applies_to, Aggregator};
use crate::engine::{
    aggregate, aggregate_result, alias, alias_expr, approx_percentile, arrow_type, arrow_type_of,
    avg, avg_expr, case_expr, case_when, cast_expr, cast_to, column, column_expr, count,
    count_expr, divide, error_message, error_text, integer_literal, integer_literal_expr, is_null,
    is_null_expr, max, max_expr, median, median_expr, min, min_expr, percentile_expr,
    quotient_expr, select, select_result, stddev, stddev_expr, sum, sum_expr, text_literal,
    text_literal_expr,
};
use crate::schema::{rendering_of, views, CellType, Field, FieldView};
use crate::text::{contains, contains_text};

verus! {

/// What became of one aggregate query.
#[derive(Debug)]
pub enum Outcome {
    /// The engine planned the query: here is its one-row table.
    Computed(DataFrame),
    /// The engine found nothing to aggregate: the statistic is undefined for
    /// every column, and the row is made of sentinels.
    Undefined,
    /// The engine failed in any other way.
    Failed(DataFusionError),
}

/// The name of the label column, the first column of a summary.
pub open spec fn label_column() -> Seq<char> {
    "describe"@
}

/// The sentinel that stands in a cell whose statistic is undefined.
pub open spec fn sentinel() -> Seq<char> {
    "null"@
}

/// The words by which the engine tells that a query had nothing to aggregate.
pub open spec fn nothing_to_aggregate() -> Seq<char> {
    "Error during planning: Aggregate requires at least one grouping or aggregate expression"@
}

/// The fraction `percent / 100`, computed by the engine in floating point.
pub open spec fn fraction_expr(percent: u8) -> Expr {
    quotient_expr(
        cast_expr(integer_literal_expr(percent as i32), arrow_type_of(CellType::Float)),
        cast_expr(integer_literal_expr(100), arrow_type_of(CellType::Float)),
    )
}

/// The aggregate call of a statistic over `value`. The null count is the sum
/// of one for each null and zero for each other value.
pub open spec fn statistic_expr(aggregator: Aggregator, value: Expr) -> Expr {
    match aggregator {
        Aggregator::Count => count_expr(value),
        Aggregator::NullCount => sum_expr(
            case_expr(is_null_expr(value), integer_literal_expr(1), integer_literal_expr(0)),
        ),
        Aggregator::Mean => avg_expr(value),
        Aggregator::StdDev => stddev_expr(value),
        Aggregator::Min => min_expr(value),
        Aggregator::Max => max_expr(value),
        Aggregator::Median => median_expr(value),
        Aggregator::Percentile(p) => percentile_expr(value, fraction_expr(p), None),
    }
}

/// The statistic of one column, under the column's own name.
pub open spec fn aggregate_expr(aggregator: Aggregator, field: FieldView) -> Expr {
    alias_expr(statistic_expr(aggregator, column_expr(field.name)), field.name)
}

/// The aggregate query of a statistic: one expression for each field that
/// the statistic is defined for, in schema order.
pub open spec fn aggregation(aggregator: Aggregator, fields: Seq<FieldView>) -> Seq<Expr>
    decreases fields.len(),
{
    if fields.len() == 0 {
        Seq::empty()
    } else {
        let before = aggregation(aggregator, fields.drop_last());
        if applies_to(aggregator, fields.last().tag) {
            before.push(aggregate_expr(aggregator, fields.last()))
        } else {
            before
        }
    }
}

/// The query that always yields one row, whatever the dataset holds.
pub open spec fn single_row() -> Seq<Expr> {
    seq![count_expr(integer_literal_expr(1))]
}

/// How the result of an aggregate query is read: a planned query is
/// computed; a failure that tells of nothing to aggregate leaves the
/// statistic undefined; any other failure stands.
pub open spec fn reading(result: Result<DataFrame, DataFusionError>) -> Outcome {
    match result {
        Ok(table) => Outcome::Computed(table),
        Err(error) => if contains(error_message(error), nothing_to_aggregate()) {
            Outcome::Undefined
        } else {
            Outcome::Failed(error)
        },
    }
}

/// One cell of a summary row: the computed value, cast to the rendering of
/// its column, or the sentinel where the statistic is undefined.
pub open spec fn cell_expr(aggregator: Aggregator, field: FieldView, computed: bool) -> Expr {
    if computed && applies_to(aggregator, field.tag) {
        alias_expr(
            cast_expr(column_expr(field.name), arrow_type_of(rendering_of(field.tag))),
            field.name,
        )
    } else {
        alias_expr(text_literal_expr(sentinel()), field.name)
    }
}

/// The projection that labels a row: the aggregator's display name as the
/// label column, then one cell per field, in schema order.
pub open spec fn labelling(aggregator: Aggregator, fields: Seq<FieldView>, computed: bool) -> Seq<
    Expr,
> {
    seq![alias_expr(text_literal_expr(aggregator.label()), label_column())] + Seq::new(
        fields.len(),
        |i: int| cell_expr(aggregator, fields[i], computed),
    )
}

/// The labelled one-row table of a statistic, or the failure that aborts the
/// profile. The statistic is aggregated over the whole dataset, without
/// grouping. Where it is undefined for every column, the row is made of the
/// label and sentinels alone.
pub open spec fn row(
    transformed: DataFrame,
    fields: Seq<FieldView>,
    aggregator: Aggregator,
) -> Result<DataFrame, DataFusionError> {
    match reading(aggregate_result(transformed, aggregation(aggregator, fields))) {
        Outcome::Computed(table) => select_result(table, labelling(aggregator, fields, true)),
        Outcome::Undefined => match aggregate_result(transformed, single_row()) {
            Ok(table) => select_result(table, labelling(aggregator, fields, false)),
            Err(error) => Err(error),
        },
        Outcome::Failed(error) => Err(error),
    }
}

/// Builds the fraction `percent / 100`.
fn fraction(percent: u8) -> (expr: Expr)
    ensures
        expr == fraction_expr(percent),
{
    let numerator = cast_to(integer_literal(percent as i32), arrow_type(CellType::Float));
    let denominator = cast_to(integer_literal(100), arrow_type(CellType::Float));
    divide(numerator, denominator)
}

impl Aggregator {
    /// Builds the aggregate call of this statistic over `value`.
    pub fn statistic(&self, value: Expr) -> (expr: Expr)
        ensures
            expr == statistic_expr(*self, value),
    {
        match self {
            Aggregator::Count => count(value),
            Aggregator::NullCount => sum(
                case_when(is_null(value), integer_literal(1), integer_literal(0)),
            ),
            Aggregator::Mean => avg(value),
            Aggregator::StdDev => stddev(value),
            Aggregator::Min => min(value),
            Aggregator::Max => max(value),
            Aggregator::Median => median(value),
            Aggregator::Percentile(p) => approx_percentile(value, fraction(*p), None),
        }
    }

    /// Builds the aggregate query of this statistic over the given fields.
    pub fn aggregate_exprs(&self, fields: &Vec<Field>) -> (exprs: Vec<Expr>)
        ensures
            exprs@ == aggregation(*self, views(fields@)),
    {
        let n = fields.len();
        let mut exprs: Vec<Expr> = Vec::new();
        let mut i: usize = 0;
        while i < n
            invariant
                n == fields@.len(),
                i <= n,
                exprs@ == aggregation(*self, views(fields@).take(i as int)),
            decreases n - i,
        {
            proof {
                let next = views(fields@).take(i + 1);
                assert(next.drop_last() =~= views(fields@).take(i as int));
                assert(next.last() == fields@[i as int]@);
            }
            if self.applies(fields[i].tag) {
                let name = fields[i].name.as_str();
                exprs.push(alias(self.statistic(column(name)), name));
            }
            i = i + 1;
        }
        assert(views(fields@).take(n as int) =~= views(fields@));
        exprs
    }

    /// Builds the projection that labels a row of this statistic. `computed`
    /// tells whether the row comes out of the statistic's own query.
    pub fn label_exprs(&self, fields: &Vec<Field>, computed: bool) -> (exprs: Vec<Expr>)
        ensures
            exprs@ == labelling(*self, views(fields@), computed),
    {
        let n = fields.len();
        let label = self.display_name();
        let mut exprs: Vec<Expr> = Vec::new();
        exprs.push(alias(text_literal(label.as_str()), "describe"));
        let mut i: usize = 0;
        while i < n
            invariant
                n == fields@.len(),
                i <= n,
                exprs@.len() == i + 1,
                exprs@[0] == alias_expr(text_literal_expr(self.label()), label_column()),
                forall|k: int|
                    1 <= k <= i ==> #[trigger] exprs@[k] == cell_expr(
                        *self,
                        fields@[k - 1]@,
                        computed,
                    ),
            decreases n - i,
        {
            let name = fields[i].name.as_str();
            let cell = if computed && self.applies(fields[i].tag) {
                alias(cast_to(column(name), arrow_type(fields[i].tag.rendering())), name)
            } else {
                alias(text_literal("null"), name)
            };
            exprs.push(cell);
            i = i + 1;
        }
        assert(exprs@ =~= labelling(*self, views(fields@), computed));
        exprs
    }
}

/// Tells whether an engine message says that a query had nothing to
/// aggregate.
pub fn tells_nothing_to_aggregate(message: &str) -> (yes: bool)
    ensures
        yes == contains(message@, nothing_to_aggregate()),
{
    contains_text(
        message,
        "Error during planning: Aggregate requires at least one grouping or aggregate expression",
    )
}

/// Reads the result of an aggregate query.
pub fn read(result: Result<DataFrame, DataFusionError>) -> (outcome: Outcome)
    ensures
        outcome == reading(result),
{
    match result {
        Ok(table) => Outcome::Computed(table),
        Err(error) => {
            let message = error_text(&error);
            if tells_nothing_to_aggregate(message.as_str()) {
                Outcome::Undefined
            } else {
                Outcome::Failed(error)
            }
        },
    }
}

/// Runs the aggregate query of one statistic against the normalized dataset
/// and labels its row.
pub fn labelled_row(
    transformed: &DataFrame,
    fields: &Vec<Field>,
    aggregator: &Aggregator,
) -> (out: Result<DataFrame, DataFusionError>)
    ensures
        out == row(*transformed, views(fields@), *aggregator),
{
    let result = aggregate(transformed, aggregator.aggregate_exprs(fields));
    match read(result) {
        Outcome::Computed(table) => select(&table, aggregator.label_exprs(fields, true)),
        Outcome::Undefined => {
            let mut only: Vec<Expr> = Vec::new();
            only.push(count(integer_literal(1)));
            assert(only@ =~= single_row());
            match aggregate(transformed, only) {
                Ok(table) => select(&table, aggregator.label_exprs(fields, false)),
                Err(error) => Err(error),
            }
        },
        Outcome::Failed(error) => Err(error),
    }
}

} // verus!
