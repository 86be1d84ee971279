//! The assembler and the cast back: the labelled rows are stacked in the
//! configured order, ordered by label, and projected to the columns as they
//! are displayed.

use datafusion::dataframe::DataFrame;
use datafusion::error::DataFusionError;
use datafusion::logical_expr::Expr;
use vstd::prelude::*;
use vstd::string::*;

use crate::aggregation::{label_column, labelled_row, row};
use crate::aggregator::Aggregator;
use crate::engine::{
    alias, alias_expr, cast_expr, cast_to, clone_type, column, column_expr, select, select_result,
    sort_by_column, sort_by_column_result, union, union_result,
};
use crate::schema::{class_of, views, ColumnClass, Field, FieldView};

verus! {

/// The rows of the aggregators stacked in the configured order: each row is
/// computed, then united with what was stacked before it. The first failure
/// ends the stacking.
pub open spec fn stacked(
    transformed: DataFrame,
    fields: Seq<FieldView>,
    aggregators: Seq<Aggregator>,
) -> Result<DataFrame, DataFusionError>
    recommends
        aggregators.len() > 0,
    decreases aggregators.len(),
{
    if aggregators.len() <= 1 {
        row(transformed, fields, aggregators[0])
    } else {
        match stacked(transformed, fields, aggregators.drop_last()) {
            Ok(upper) => match row(transformed, fields, aggregators.last()) {
                Ok(lower) => union_result(upper, lower),
                Err(error) => Err(error),
            },
            Err(error) => Err(error),
        }
    }
}

/// A failure while stacking the first `upto` rows is the failure of
/// stacking all of them.
pub proof fn lemma_failure_stands(
    transformed: DataFrame,
    fields: Seq<FieldView>,
    aggregators: Seq<Aggregator>,
    upto: int,
)
    requires
        1 <= upto <= aggregators.len(),
        stacked(transformed, fields, aggregators.take(upto)) is Err,
    ensures
        stacked(transformed, fields, aggregators) == stacked(
            transformed,
            fields,
            aggregators.take(upto),
        ),
    decreases aggregators.len() - upto,
{
    if upto == aggregators.len() {
        assert(aggregators.take(upto) =~= aggregators);
    } else {
        let next = aggregators.take(upto + 1);
        assert(next.drop_last() =~= aggregators.take(upto));
        lemma_failure_stands(transformed, fields, aggregators, upto + 1);
    }
}

/// Stacks the labelled rows of the aggregators, in the configured order.
/// At least one aggregator is needed.
pub fn stack(
    transformed: &DataFrame,
    fields: &Vec<Field>,
    aggregators: &Vec<Aggregator>,
) -> (out: Result<DataFrame, DataFusionError>)
    requires
        aggregators@.len() > 0,
    ensures
        out == stacked(*transformed, views(fields@), aggregators@),
{
    let n = aggregators.len();
    let ghost shown = views(fields@);
    assert(aggregators@.take(1)[0] == aggregators@[0]);
    let mut table = match labelled_row(transformed, fields, &aggregators[0]) {
        Ok(first) => first,
        Err(error) => {
            proof {
                lemma_failure_stands(*transformed, shown, aggregators@, 1);
            }
            return Err(error);
        },
    };
    let mut i: usize = 1;
    while i < n
        invariant
            n == aggregators@.len(),
            1 <= i <= n,
            shown == views(fields@),
            stacked(*transformed, shown, aggregators@.take(i as int)) == Ok::<
                DataFrame,
                DataFusionError,
            >(table),
        decreases n - i,
    {
        proof {
            let next = aggregators@.take(i + 1);
            assert(next.drop_last() =~= aggregators@.take(i as int));
            assert(next.last() == aggregators@[i as int]);
        }
        let lower = match labelled_row(transformed, fields, &aggregators[i]) {
            Ok(lower) => lower,
            Err(error) => {
                proof {
                    lemma_failure_stands(*transformed, shown, aggregators@, i + 1);
                }
                return Err(error);
            },
        };
        table = match union(table, lower) {
            Ok(united) => united,
            Err(error) => {
                proof {
                    lemma_failure_stands(*transformed, shown, aggregators@, i + 1);
                }
                return Err(error);
            },
        };
        i = i + 1;
    }
    assert(aggregators@.take(n as int) =~= aggregators@);
    Ok(table)
}

/// The stacked rows in the order of a summary: by the label column alone,
/// ascending, nulls last.
pub open spec fn ordered(table: DataFrame) -> Result<DataFrame, DataFusionError> {
    sort_by_column_result(table, label_column(), true, false)
}

/// A column of the summary as it is displayed: a temporal column is cast
/// back to the type it was declared with, any other column stays as it is.
pub open spec fn restored_expr(field: FieldView) -> Expr {
    if class_of(field.tag) == ColumnClass::Temporal {
        alias_expr(cast_expr(column_expr(field.name), field.data_type), field.name)
    } else {
        column_expr(field.name)
    }
}

/// The final projection: the label column, then every field restored, in
/// schema order.
pub open spec fn restoration(fields: Seq<FieldView>) -> Seq<Expr> {
    seq![column_expr(label_column())] + Seq::new(fields.len(), |i: int| restored_expr(fields[i]))
}

/// What the summary's rows go through once stacked: ordered by label, then
/// restored for display.
pub open spec fn finished(table: DataFrame, fields: Seq<FieldView>) -> Result<
    DataFrame,
    DataFusionError,
> {
    match ordered(table) {
        Ok(sorted) => select_result(sorted, restoration(fields)),
        Err(error) => Err(error),
    }
}

/// The summary table of a normalized dataset, or the failure that aborts the
/// profile.
pub open spec fn summary(
    transformed: DataFrame,
    fields: Seq<FieldView>,
    aggregators: Seq<Aggregator>,
) -> Result<DataFrame, DataFusionError> {
    match stacked(transformed, fields, aggregators) {
        Ok(table) => finished(table, fields),
        Err(error) => Err(error),
    }
}

/// Builds the final projection of a summary.
pub fn restore_exprs(fields: &Vec<Field>) -> (exprs: Vec<Expr>)
    ensures
        exprs@ == restoration(views(fields@)),
{
    let n = fields.len();
    let mut exprs: Vec<Expr> = Vec::new();
    exprs.push(column("describe"));
    let mut i: usize = 0;
    while i < n
        invariant
            n == fields@.len(),
            i <= n,
            exprs@.len() == i + 1,
            exprs@[0] == column_expr(label_column()),
            forall|k: int| 1 <= k <= i ==> #[trigger] exprs@[k] == restored_expr(fields@[k - 1]@),
        decreases n - i,
    {
        let name = fields[i].name.as_str();
        let restored = match fields[i].tag.class() {
            ColumnClass::Temporal => alias(
                cast_to(column(name), clone_type(&fields[i].data_type)),
                name,
            ),
            _ => column(name),
        };
        exprs.push(restored);
        i = i + 1;
    }
    assert(exprs@ =~= restoration(views(fields@)));
    exprs
}

/// Orders the stacked rows by label and restores the temporal columns.
pub fn finish(table: DataFrame, fields: &Vec<Field>) -> (out: Result<DataFrame, DataFusionError>)
    ensures
        out == finished(table, views(fields@)),
{
    match sort_by_column(table, "describe", true, false) {
        Ok(sorted) => select(&sorted, restore_exprs(fields)),
        Err(error) => Err(error),
    }
}

} // verus!
