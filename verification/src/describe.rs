//! The profiler: it normalizes a dataset, runs the configured statistics
//! against it and assembles their rows into the summary table.

use datafusion::dataframe::DataFrame;
use datafusion::error::DataFusionError;
use vstd::prelude::*;

use crate::aggregator::{
    default_aggregators, default_set, refusal, rejects, usable, validate, Aggregator,
};
use crate::assembly::{finish, finished, stack, summary};
use crate::engine::{select, select_result};
use crate::error::DescribeError;
use crate::laws::lemma_rejection_is_decided;
use crate::projection::{project, projection};
use crate::schema::{fields_of, read_schema, views, Field, FieldView};

verus! {

/// What a profile returns: the summary table, or the engine's failure as
/// the profile's error.
pub open spec fn profile(
    transformed: DataFrame,
    fields: Seq<FieldView>,
    aggregators: Seq<Aggregator>,
) -> Result<DataFrame, DescribeError> {
    match summary(transformed, fields, aggregators) {
        Ok(table) => Ok(table),
        Err(error) => Err(DescribeError::Engine(error)),
    }
}

/// The aggregators a profile runs: the configured ones, or the default set
/// where none are configured.
pub open spec fn configured(aggregators: Option<Vec<Aggregator>>) -> Seq<Aggregator> {
    match aggregators {
        Some(list) => list@,
        None => default_set(),
    }
}

/// A profile of one dataset: the dataset as it was given, its normalized
/// form, its fields and the statistics to compute.
#[derive(Debug)]
pub struct Describer {
    original: DataFrame,
    transformed: DataFrame,
    fields: Vec<Field>,
    aggregator: Vec<Aggregator>,
}

impl Describer {
    /// The fields are those of the dataset, the normalized form is the
    /// dataset's projection, and the aggregators can be used.
    #[verifier::type_invariant]
    spec fn well_formed(self) -> bool {
        &&& views(self.fields@) == fields_of(self.original)
        &&& select_result(self.original, projection(fields_of(self.original))) == Ok::<
            DataFrame,
            DataFusionError,
        >(self.transformed)
        &&& usable(self.aggregator@)
    }

    /// The dataset that is profiled.
    pub closed spec fn original(self) -> DataFrame {
        self.original
    }

    /// The normalized dataset that the aggregate queries run against.
    pub closed spec fn transformed(self) -> DataFrame {
        self.transformed
    }

    /// The statistics to compute, in the configured order.
    pub closed spec fn aggregators(self) -> Seq<Aggregator> {
        self.aggregator@
    }

    /// Prepares the profile of `df`. The dataset is normalized first: where
    /// the engine refuses, its error is handed on. Then the aggregators are
    /// checked; without any, the default set is taken.
    pub fn try_new(df: DataFrame, agg: Option<Vec<Aggregator>>) -> (made: Result<
        Describer,
        DescribeError,
    >)
        ensures
            match made {
                Ok(describer) => {
                    &&& describer.original() == df
                    &&& select_result(df, projection(fields_of(df))) == Ok::<
                        DataFrame,
                        DataFusionError,
                    >(describer.transformed())
                    &&& describer.aggregators() == configured(agg)
                    &&& usable(configured(agg))
                },
                Err(DescribeError::Transform(error)) => select_result(
                    df,
                    projection(fields_of(df)),
                ) == Err::<DataFrame, DataFusionError>(error),
                Err(DescribeError::Configuration(error)) => {
                    &&& select_result(df, projection(fields_of(df))) is Ok
                    &&& rejects(configured(agg), error)
                },
                Err(DescribeError::Engine(_)) => false,
            },
    {
        let fields = read_schema(&df);
        let transformed = match select(&df, project(&fields)) {
            Ok(table) => table,
            Err(error) => {
                return Err(DescribeError::Transform(error));
            },
        };
        let aggregator = match agg {
            Some(list) => list,
            None => default_aggregators(),
        };
        match validate(&aggregator) {
            Ok(()) => Ok(Describer { original: df, transformed, fields, aggregator }),
            Err(error) => Err(DescribeError::Configuration(error)),
        }
    }

    /// Orders the stacked rows by label and restores the temporal columns.
    fn cast_back(&self, table: DataFrame) -> (out: Result<DataFrame, DataFusionError>)
        ensures
            out == finished(table, fields_of(self.original)),
    {
        proof {
            use_type_invariant(self);
        }
        finish(table, &self.fields)
    }

    /// Computes the summary table: one row per aggregator, labelled with the
    /// aggregator's display name and ordered by label; one column per field
    /// of the dataset, after the label column. A statistic that is undefined
    /// for a column leaves the sentinel `null` in its cell. Any failure of
    /// the engine aborts the profile.
    pub fn describe(&self) -> (out: Result<DataFrame, DescribeError>)
        ensures
            out == profile(self.transformed(), fields_of(self.original()), self.aggregators()),
    {
        proof {
            use_type_invariant(self);
        }
        let table = match stack(&self.transformed, &self.fields, &self.aggregator) {
            Ok(table) => table,
            Err(error) => {
                return Err(DescribeError::Engine(error));
            },
        };
        match self.cast_back(table) {
            Ok(table) => Ok(table),
            Err(error) => Err(DescribeError::Engine(error)),
        }
    }
}

/// What profiling a dataset comes to: the engine's refusal to normalize
/// it, or the refusal of the aggregators, or the profile of its normalized
/// form.
pub open spec fn described(dataset: DataFrame, aggregators: Option<Vec<Aggregator>>) -> Result<
    DataFrame,
    DescribeError,
> {
    match select_result(dataset, projection(fields_of(dataset))) {
        Err(error) => Err(DescribeError::Transform(error)),
        Ok(transformed) => if usable(configured(aggregators)) {
            profile(transformed, fields_of(dataset), configured(aggregators))
        } else {
            Err(DescribeError::Configuration(refusal(configured(aggregators))))
        },
    }
}

/// Profiles a dataset: computes its summary table for the given
/// aggregators, or for the default set where none are given.
pub fn describe(dataset: DataFrame, aggregators: Option<Vec<Aggregator>>) -> (out: Result<
    DataFrame,
    DescribeError,
>)
    ensures
        out == described(dataset, aggregators),
{
    match Describer::try_new(dataset, aggregators) {
        Ok(describer) => describer.describe(),
        Err(error) => {
            proof {
                if let DescribeError::Configuration(reason) = error {
                    lemma_rejection_is_decided(
                        configured(aggregators),
                        reason,
                        refusal(configured(aggregators)),
                    );
                }
            }
            Err(error)
        },
    }
}

} // verus!
