//! What can go wrong while a dataset is profiled.

use datafusion::error::DataFusionError;
use vstd::prelude::*;
use vstd::string::*;

use crate::aggregator::ConfigError;
use crate::engine::{error_message, error_text};
use crate::text::{decimal, render_decimal};

verus! {

/// A failed profile. No partial summary comes with it.
#[derive(Debug)]
pub enum DescribeError {
    /// The aggregators cannot be used as configured.
    Configuration(ConfigError),
    /// The engine refused to normalize the dataset's columns.
    Transform(DataFusionError),
    /// The engine refused a query of the aggregation, of the assembly or of
    /// the restoring projection.
    Engine(DataFusionError),
}

/// The sentence that tells of a configuration error.
pub open spec fn config_message(error: ConfigError) -> Seq<char> {
    match error {
        ConfigError::NoAggregators => "at least one aggregator is needed"@,
        ConfigError::PercentileOutOfRange(p) => "percentile should be [0, 100], but got "@
            + decimal(p as nat),
    }
}

impl ConfigError {
    /// Renders the error as one sentence.
    pub fn message(&self) -> (text: String)
        ensures
            text@ == config_message(*self),
    {
        match self {
            ConfigError::NoAggregators => String::from_str("at least one aggregator is needed"),
            ConfigError::PercentileOutOfRange(p) => {
                let mut text = String::from_str("percentile should be [0, 100], but got ");
                let digits = render_decimal(*p as usize);
                text.append(digits.as_str());
                text
            },
        }
    }
}

impl DescribeError {
    /// The text of the error: of a configuration error the library's own
    /// sentence, of any other the engine's rendering.
    pub open spec fn text(self) -> Seq<char> {
        match self {
            DescribeError::Configuration(c) => config_message(c),
            DescribeError::Transform(e) => error_message(e),
            DescribeError::Engine(e) => error_message(e),
        }
    }

    /// Renders the error as one descriptive text.
    pub fn message(&self) -> (text: String)
        ensures
            text@ == self.text(),
    {
        match self {
            DescribeError::Configuration(c) => c.message(),
            DescribeError::Transform(e) => error_text(e),
            DescribeError::Engine(e) => error_text(e),
        }
    }
}

} // verus!
