//! The statistic kinds a profile is made of, and the rules of configuring
//! them.

use vstd::prelude::*;
use vstd::string::*;

use crate::schema::TypeTag;
use crate::text::{decimal, render_decimal};

verus! {

/// The largest percentile that can be asked for.
pub const MAX_PERCENTILE: u8 = 100;

/// One statistic to compute per column.
#[derive(Debug, Clone, Copy, PartialEq, Eq, Structural)]
pub enum Aggregator {
    Count,
    NullCount,
    Mean,
    StdDev,
    Min,
    Max,
    Median,
    Percentile(u8),
}

/// Why a list of aggregators cannot be used.
#[derive(Debug, Clone, Copy, PartialEq, Eq, Structural)]
pub enum ConfigError {
    /// The list is empty: there would be no row to assemble.
    NoAggregators,
    /// A percentile above 100 was asked for.
    PercentileOutOfRange(u8),
}

/// The aggregators used when none are configured.
pub open spec fn default_set() -> Seq<Aggregator> {
    seq![
        Aggregator::Count,
        Aggregator::NullCount,
        Aggregator::Mean,
        Aggregator::StdDev,
        Aggregator::Min,
        Aggregator::Max,
        Aggregator::Median,
        Aggregator::Percentile(25),
    ]
}

/// Every aggregator of the list is valid.
pub open spec fn all_valid(aggregators: Seq<Aggregator>) -> bool {
    forall|i: int| 0 <= i < aggregators.len() ==> (#[trigger] aggregators[i]).valid()
}

/// A list of aggregators can be used: it is not empty and each is valid.
pub open spec fn usable(aggregators: Seq<Aggregator>) -> bool {
    aggregators.len() > 0 && all_valid(aggregators)
}

/// The aggregator at position `at` asks for the percentile `p` above 100,
/// and every aggregator before it is valid.
pub open spec fn refused_at(aggregators: Seq<Aggregator>, p: u8, at: int) -> bool {
    &&& 0 <= at < aggregators.len()
    &&& aggregators[at] == Aggregator::Percentile(p)
    &&& p > MAX_PERCENTILE
    &&& all_valid(aggregators.take(at))
}

/// A list of aggregators is refused for the given reason: it is empty, or
/// `p` is its first percentile above 100.
pub open spec fn rejects(aggregators: Seq<Aggregator>, error: ConfigError) -> bool {
    match error {
        ConfigError::NoAggregators => aggregators.len() == 0,
        ConfigError::PercentileOutOfRange(p) => exists|at: int|
            refused_at(aggregators, p, at),
    }
}

/// The reason for which a list that cannot be used is refused.
pub open spec fn refusal(aggregators: Seq<Aggregator>) -> ConfigError {
    choose|error: ConfigError| rejects(aggregators, error)
}

/// A list with an offending percentile is refused for it.
pub proof fn lemma_refused(aggregators: Seq<Aggregator>, p: u8, at: int)
    requires
        refused_at(aggregators, p, at),
    ensures
        rejects(aggregators, ConfigError::PercentileOutOfRange(p)),
{
    let error = ConfigError::PercentileOutOfRange(p);
    assert(error->0 == p);
}

/// Minimum and maximum are not defined for boolean and binary columns; every
/// other statistic is defined for every column.
pub open spec fn applies_to(aggregator: Aggregator, tag: TypeTag) -> bool {
    match aggregator {
        Aggregator::Min | Aggregator::Max => tag != TypeTag::Boolean && tag != TypeTag::Binary,
        _ => true,
    }
}

impl Aggregator {
    /// A percentile aggregator is valid only for `0 <= p <= 100`; every
    /// other kind is always valid.
    pub open spec fn valid(self) -> bool {
        match self {
            Aggregator::Percentile(p) => p <= MAX_PERCENTILE,
            _ => true,
        }
    }

    /// The name a summary row of this aggregator is labelled with.
    pub open spec fn label(self) -> Seq<char> {
        match self {
            Aggregator::Count => "count"@,
            Aggregator::NullCount => "null_count"@,
            Aggregator::Mean => "mean"@,
            Aggregator::StdDev => "stddev"@,
            Aggregator::Min => "min"@,
            Aggregator::Max => "max"@,
            Aggregator::Median => "median"@,
            Aggregator::Percentile(p) => "percentile("@ + decimal(p as nat) + ")"@,
        }
    }

    /// Tells whether this aggregator may be part of a configuration.
    pub fn is_valid(&self) -> (ok: bool)
        ensures
            ok == self.valid(),
    {
        match self {
            Aggregator::Percentile(p) => *p <= MAX_PERCENTILE,
            _ => true,
        }
    }

    /// Tells whether this statistic is defined for columns with the given tag.
    pub fn applies(&self, tag: TypeTag) -> (ok: bool)
        ensures
            ok == applies_to(*self, tag),
    {
        match self {
            Aggregator::Min | Aggregator::Max => tag != TypeTag::Boolean && tag != TypeTag::Binary,
            _ => true,
        }
    }

    /// The display name: `count`, `null_count`, `mean`, `stddev`, `min`,
    /// `max`, `median`, or `percentile(<p>)`.
    pub fn display_name(&self) -> (name: String)
        ensures
            name@ == self.label(),
    {
        match self {
            Aggregator::Count => String::from_str("count"),
            Aggregator::NullCount => String::from_str("null_count"),
            Aggregator::Mean => String::from_str("mean"),
            Aggregator::StdDev => String::from_str("stddev"),
            Aggregator::Min => String::from_str("min"),
            Aggregator::Max => String::from_str("max"),
            Aggregator::Median => String::from_str("median"),
            Aggregator::Percentile(p) => {
                let mut name = String::from_str("percentile(");
                let digits = render_decimal(*p as usize);
                name.append(digits.as_str());
                name.append(")");
                name
            },
        }
    }
}

/// The default configuration: count, null count, mean, standard deviation,
/// minimum, maximum, median and the 25th percentile, in this order.
pub fn default_aggregators() -> (aggregators: Vec<Aggregator>)
    ensures
        aggregators@ == default_set(),
{
    let mut aggregators: Vec<Aggregator> = Vec::new();
    aggregators.push(Aggregator::Count);
    aggregators.push(Aggregator::NullCount);
    aggregators.push(Aggregator::Mean);
    aggregators.push(Aggregator::StdDev);
    aggregators.push(Aggregator::Min);
    aggregators.push(Aggregator::Max);
    aggregators.push(Aggregator::Median);
    aggregators.push(Aggregator::Percentile(25));
    assert(aggregators@ =~= default_set());
    aggregators
}

/// Checks a configured list of aggregators. An empty list is refused, and so
/// is a list with a percentile above 100: the first such percentile is
/// reported.
pub fn validate(aggregators: &Vec<Aggregator>) -> (checked: Result<(), ConfigError>)
    ensures
        match checked {
            Ok(()) => usable(aggregators@),
            Err(error) => rejects(aggregators@, error),
        },
{
    let n = aggregators.len();
    if n == 0 {
        return Err(ConfigError::NoAggregators);
    }
    let mut i: usize = 0;
    while i < n
        invariant
            n == aggregators@.len(),
            i <= n,
            all_valid(aggregators@.take(i as int)),
        decreases n - i,
    {
        match aggregators[i] {
            Aggregator::Percentile(p) => {
                if p > MAX_PERCENTILE {
                    proof {
                        lemma_refused(aggregators@, p, i as int);
                    }
                    return Err(ConfigError::PercentileOutOfRange(p));
                }
            },
            _ => {},
        }
        assert forall|k: int| 0 <= k < i + 1 implies (#[trigger] aggregators@.take(i + 1)[k]).valid() by {
            if k < i {
                assert(aggregators@.take(i as int)[k].valid());
            }
        }
        i = i + 1;
    }
    assert(aggregators@.take(n as int) =~= aggregators@);
    Ok(())
}

} // verus!
