//! What holds of every profile, whatever the dataset and the configuration.

use datafusion::dataframe::DataFrame;
use vstd::prelude::*;

use crate::aggregator::{
    all_valid, default_set, lemma_refused, refused_at, rejects, usable, Aggregator, ConfigError,
};
use crate::aggregation::{aggregation, label_column, labelling, row};
use crate::assembly::{finished, ordered, restoration, stacked, summary};
use crate::describe::profile;
use crate::engine::{
    alias_expr, column_expr, select_result, sort_by_column_result, text_literal_expr,
};
use crate::error::DescribeError;
use crate::projection::projection;
use crate::schema::FieldView;
use crate::text::{decimal, lemma_decimal_is_injective, lemma_decimal_reads_back};

verus! {

/// A summary is laid out with one row per aggregator and one column more
/// than the dataset has fields: the default set has eight aggregators, every
/// row is projected to the label and one cell per field, and so is the final
/// projection. The normalizing projection has one expression per field, and
/// no aggregate query has more.
pub proof fn lemma_summary_shape(aggregator: Aggregator, fields: Seq<FieldView>, computed: bool)
    ensures
        default_set().len() == 8,
        usable(default_set()),
        labelling(aggregator, fields, computed).len() == 1 + fields.len(),
        restoration(fields).len() == 1 + fields.len(),
        projection(fields).len() == fields.len(),
        aggregation(aggregator, fields).len() <= fields.len(),
    decreases fields.len(),
{
    if fields.len() > 0 {
        lemma_summary_shape(aggregator, fields.drop_last(), computed);
    }
}

/// A summary holds the row of every aggregator: where the summary comes
/// about, each configured statistic was aggregated and labelled, none was
/// left out.
pub proof fn lemma_summary_has_every_row(
    transformed: DataFrame,
    fields: Seq<FieldView>,
    aggregators: Seq<Aggregator>,
    i: int,
)
    requires
        summary(transformed, fields, aggregators) is Ok,
        0 <= i < aggregators.len(),
    ensures
        row(transformed, fields, aggregators[i]) is Ok,
{
    lemma_stack_has_every_row(transformed, fields, aggregators, i);
}

/// Where the rows of the aggregators can be stacked, each of them is there.
proof fn lemma_stack_has_every_row(
    transformed: DataFrame,
    fields: Seq<FieldView>,
    aggregators: Seq<Aggregator>,
    i: int,
)
    requires
        stacked(transformed, fields, aggregators) is Ok,
        0 <= i < aggregators.len(),
    ensures
        row(transformed, fields, aggregators[i]) is Ok,
    decreases aggregators.len(),
{
    if aggregators.len() > 1 && i < aggregators.len() - 1 {
        let before = aggregators.drop_last();
        assert(before[i] == aggregators[i]);
        lemma_stack_has_every_row(transformed, fields, before, i);
    }
}

/// The label of a row is the display name of its aggregator, under the name
/// of the label column, and the rows are ordered by that column alone,
/// ascending, nulls last, before they are projected for display.
pub proof fn lemma_rows_carry_display_names(
    aggregator: Aggregator,
    fields: Seq<FieldView>,
    computed: bool,
    table: DataFrame,
)
    ensures
        labelling(aggregator, fields, computed)[0] == alias_expr(
            text_literal_expr(aggregator.label()),
            label_column(),
        ),
        restoration(fields)[0] == column_expr(label_column()),
        ordered(table) == sort_by_column_result(table, label_column(), true, false),
        finished(table, fields) is Ok ==> ordered(table) is Ok && finished(table, fields)
            == select_result(ordered(table)->Ok_0, restoration(fields)),
{
}

/// The display name tells the aggregator: two aggregators with the same
/// label are the same aggregator, so each row of a summary can be told from
/// every other by its label as long as no aggregator is configured twice.
pub proof fn lemma_label_tells_aggregator(a: Aggregator, b: Aggregator)
    requires
        a.label() == b.label(),
    ensures
        a == b,
{
    reveal_strlit("count");
    reveal_strlit("null_count");
    reveal_strlit("mean");
    reveal_strlit("stddev");
    reveal_strlit("min");
    reveal_strlit("max");
    reveal_strlit("median");
    reveal_strlit("percentile(");
    reveal_strlit(")");
    lemma_label_shape(a);
    lemma_label_shape(b);
    match (a, b) {
        (Aggregator::Percentile(p), Aggregator::Percentile(q)) => {
            let left = decimal(p as nat);
            let right = decimal(q as nat);
            assert(a.label().subrange(11, a.label().len() - 1) =~= left);
            assert(b.label().subrange(11, b.label().len() - 1) =~= right);
            lemma_decimal_is_injective(p as nat, q as nat);
        },
        _ => {},
    }
}

/// The length and the first two characters of a label.
proof fn lemma_label_shape(a: Aggregator)
    ensures
        a.label().len() == match a {
            Aggregator::Count => 5int,
            Aggregator::NullCount => 10int,
            Aggregator::Mean => 4int,
            Aggregator::StdDev => 6int,
            Aggregator::Min => 3int,
            Aggregator::Max => 3int,
            Aggregator::Median => 6int,
            Aggregator::Percentile(p) => 12 + decimal(p as nat).len() as int,
        },
        a.label()[0] == match a {
            Aggregator::Count => 'c',
            Aggregator::NullCount => 'n',
            Aggregator::StdDev => 's',
            Aggregator::Percentile(_) => 'p',
            _ => 'm',
        },
        a.label()[1] == match a {
            Aggregator::Count => 'o',
            Aggregator::NullCount => 'u',
            Aggregator::Mean => 'e',
            Aggregator::StdDev => 't',
            Aggregator::Min => 'i',
            Aggregator::Max => 'a',
            Aggregator::Median => 'e',
            Aggregator::Percentile(_) => 'e',
        },
        a is Percentile ==> a.label().len() >= 13,
{
    reveal_strlit("count");
    reveal_strlit("null_count");
    reveal_strlit("mean");
    reveal_strlit("stddev");
    reveal_strlit("min");
    reveal_strlit("max");
    reveal_strlit("median");
    reveal_strlit("percentile(");
    reveal_strlit(")");
    if let Aggregator::Percentile(p) = a {
        lemma_decimal_reads_back(p as nat);
    }
}

/// Profiling is repeatable: two profiles of the same normalized dataset,
/// fields and aggregators return the same result.
pub proof fn lemma_describe_repeats(
    transformed: DataFrame,
    fields: Seq<FieldView>,
    aggregators: Seq<Aggregator>,
    first: Result<DataFrame, DescribeError>,
    second: Result<DataFrame, DescribeError>,
)
    requires
        first == profile(transformed, fields, aggregators),
        second == profile(transformed, fields, aggregators),
    ensures
        first == second,
{
}

/// A percentile is valid exactly from 0 to 100, and every other aggregator
/// is valid.
pub proof fn lemma_percentile_bounds(aggregator: Aggregator)
    ensures
        aggregator matches Aggregator::Percentile(p) ==> (aggregator.valid() <==> 0 <= p <= 100),
        !(aggregator is Percentile) ==> aggregator.valid(),
{
}

/// A list of aggregators is either usable or refused, never both, and it is
/// refused for one reason only.
pub proof fn lemma_rejection_is_decided(
    aggregators: Seq<Aggregator>,
    first: ConfigError,
    second: ConfigError,
)
    ensures
        rejects(aggregators, first) ==> !usable(aggregators),
        rejects(aggregators, first) && rejects(aggregators, second) ==> first == second,
        !usable(aggregators) ==> exists|error: ConfigError| rejects(aggregators, error),
{
    if rejects(aggregators, first) {
        lemma_refused_is_unusable(aggregators, first);
        if rejects(aggregators, second) {
            lemma_one_reason(aggregators, first, second);
        }
    }
    if !usable(aggregators) {
        lemma_unusable_is_refused(aggregators);
    }
}

proof fn lemma_refused_is_unusable(aggregators: Seq<Aggregator>, error: ConfigError)
    requires
        rejects(aggregators, error),
    ensures
        !usable(aggregators),
{
    match error {
        ConfigError::NoAggregators => {},
        ConfigError::PercentileOutOfRange(p) => {
            let i = choose|i: int| refused_at(aggregators, p, i);
            assert(refused_at(aggregators, p, i));
            assert(!aggregators[i].valid());
        },
    }
}

proof fn lemma_one_reason(aggregators: Seq<Aggregator>, first: ConfigError, second: ConfigError)
    requires
        rejects(aggregators, first),
        rejects(aggregators, second),
    ensures
        first == second,
{
    match (first, second) {
        (ConfigError::PercentileOutOfRange(p), ConfigError::PercentileOutOfRange(q)) => {
            let i = choose|i: int| refused_at(aggregators, p, i);
            let j = choose|j: int| refused_at(aggregators, q, j);
            assert(refused_at(aggregators, p, i));
            assert(refused_at(aggregators, q, j));
            if i < j {
                assert(aggregators.take(j)[i].valid());
            } else if j < i {
                assert(aggregators.take(i)[j].valid());
            }
        },
        (ConfigError::NoAggregators, ConfigError::PercentileOutOfRange(q)) => {
            let j = choose|j: int| refused_at(aggregators, q, j);
            assert(refused_at(aggregators, q, j));
        },
        (ConfigError::PercentileOutOfRange(p), ConfigError::NoAggregators) => {
            let i = choose|i: int| refused_at(aggregators, p, i);
            assert(refused_at(aggregators, p, i));
        },
        _ => {},
    }
}

proof fn lemma_unusable_is_refused(aggregators: Seq<Aggregator>)
    requires
        !usable(aggregators),
    ensures
        exists|error: ConfigError| rejects(aggregators, error),
    decreases aggregators.len(),
{
    if aggregators.len() == 0 {
        assert(rejects(aggregators, ConfigError::NoAggregators));
    } else {
        let before = aggregators.drop_last();
        if all_valid(before) {
            let i = aggregators.len() - 1;
            assert(before =~= aggregators.take(i));
            assert(!aggregators[i].valid()) by {
                if aggregators[i].valid() {
                    assert forall|k: int| 0 <= k < aggregators.len() implies (
                    #[trigger] aggregators[k]).valid() by {
                        if k < i {
                            assert(before[k].valid());
                        }
                    }
                }
            }
            match aggregators[i] {
                Aggregator::Percentile(p) => {
                    lemma_refused(aggregators, p, i);
                },
                _ => {},
            }
        } else {
            assert(before.len() > 0) by {
                if before.len() == 0 {
                    assert(all_valid(before));
                }
            }
            lemma_unusable_is_refused(before);
            let error = choose|error: ConfigError| rejects(before, error);
            match error {
                ConfigError::NoAggregators => {},
                ConfigError::PercentileOutOfRange(p) => {
                    let i = choose|i: int| refused_at(before, p, i);
                    assert(refused_at(before, p, i));
                    assert(before.take(i) =~= aggregators.take(i));
                    assert(aggregators[i] == before[i]);
                    lemma_refused(aggregators, p, i);
                },
            }
        }
    }
}

} // verus!
