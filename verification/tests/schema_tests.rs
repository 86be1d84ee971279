use std::sync::Arc;

use data_forge_rs::aggregator::{default_aggregators, validate, Aggregator, ConfigError};
use data_forge_rs::error::DescribeError;
use data_forge_rs::schema::{
    classify, read_schema, type_tag, CellType, ColumnClass, Field, TypeShape, TypeTag,
};
use datafusion::arrow::array::{ArrayRef, BooleanArray, Int64Array, RecordBatch, StringArray};
use datafusion::arrow::datatypes::{DataType, Field as ArrowField, IntervalUnit, TimeUnit};
use datafusion::error::DataFusionError;
use datafusion::prelude::SessionContext;

#[test]
fn numeric_family_is_looked_at_first() {
    assert_eq!(type_tag(true, false, TypeShape::Plain), TypeTag::Numeric);
    assert_eq!(type_tag(true, true, TypeShape::List), TypeTag::Numeric);
    assert_eq!(type_tag(false, true, TypeShape::List), TypeTag::Temporal);
    assert_eq!(type_tag(false, true, TypeShape::Plain), TypeTag::Temporal);
    assert_eq!(type_tag(false, false, TypeShape::List), TypeTag::List);
    assert_eq!(type_tag(false, false, TypeShape::LargeList), TypeTag::List);
    assert_eq!(type_tag(false, true, TypeShape::LargeList), TypeTag::Temporal);
    assert_eq!(type_tag(false, false, TypeShape::Text), TypeTag::Utf8Text);
    assert_eq!(type_tag(false, false, TypeShape::Binary), TypeTag::Binary);
    assert_eq!(type_tag(false, false, TypeShape::Boolean), TypeTag::Boolean);
    assert_eq!(type_tag(false, false, TypeShape::Plain), TypeTag::Other);
}

#[test]
fn engine_types_are_tagged() {
    let item = Arc::new(ArrowField::new("item", DataType::Int32, true));
    assert_eq!(TypeTag::of(&DataType::Int8), TypeTag::Numeric);
    assert_eq!(TypeTag::of(&DataType::UInt64), TypeTag::Numeric);
    assert_eq!(TypeTag::of(&DataType::Float32), TypeTag::Numeric);
    assert_eq!(TypeTag::of(&DataType::Decimal128(10, 2)), TypeTag::Numeric);
    assert_eq!(TypeTag::of(&DataType::Date32), TypeTag::Temporal);
    assert_eq!(TypeTag::of(&DataType::Time64(TimeUnit::Nanosecond)), TypeTag::Temporal);
    assert_eq!(TypeTag::of(&DataType::Timestamp(TimeUnit::Millisecond, None)), TypeTag::Temporal);
    assert_eq!(TypeTag::of(&DataType::Duration(TimeUnit::Second)), TypeTag::Temporal);
    assert_eq!(TypeTag::of(&DataType::Interval(IntervalUnit::YearMonth)), TypeTag::Temporal);
    assert_eq!(TypeTag::of(&DataType::List(item.clone())), TypeTag::List);
    assert_eq!(TypeTag::of(&DataType::LargeList(item.clone())), TypeTag::List);
    assert_eq!(TypeTag::of(&DataType::Utf8), TypeTag::Utf8Text);
    assert_eq!(TypeTag::of(&DataType::Binary), TypeTag::Binary);
    assert_eq!(TypeTag::of(&DataType::Boolean), TypeTag::Boolean);
    assert_eq!(TypeTag::of(&DataType::Null), TypeTag::Other);
    assert_eq!(TypeTag::of(&DataType::LargeUtf8), TypeTag::Other);
    assert_eq!(TypeTag::of(&DataType::FixedSizeList(item, 2)), TypeTag::Other);
}

#[test]
fn tags_are_classified() {
    assert_eq!(TypeTag::Numeric.class(), ColumnClass::Numeric);
    assert_eq!(TypeTag::Temporal.class(), ColumnClass::Temporal);
    assert_eq!(TypeTag::List.class(), ColumnClass::NestedList);
    assert_eq!(TypeTag::Utf8Text.class(), ColumnClass::Other);
    assert_eq!(TypeTag::Binary.class(), ColumnClass::Other);
    assert_eq!(TypeTag::Boolean.class(), ColumnClass::Other);
    assert_eq!(TypeTag::Other.class(), ColumnClass::Other);
    let field = Field::new("when".to_string(), DataType::Date64);
    assert_eq!(field.name, "when");
    assert_eq!(field.tag, TypeTag::Temporal);
    assert_eq!(field.data_type, DataType::Date64);
    assert_eq!(classify(&field), ColumnClass::Temporal);
    let written = Field { name: "n".to_string(), tag: TypeTag::List, data_type: DataType::Null };
    assert_eq!(classify(&written), ColumnClass::NestedList);
}

#[test]
fn cells_are_rendered_as_floats_or_text() {
    assert_eq!(TypeTag::Numeric.rendering(), CellType::Float);
    assert_eq!(TypeTag::Temporal.rendering(), CellType::Float);
    assert_eq!(TypeTag::List.rendering(), CellType::Text);
    assert_eq!(TypeTag::Utf8Text.rendering(), CellType::Text);
    assert_eq!(TypeTag::Binary.rendering(), CellType::Text);
    assert_eq!(TypeTag::Boolean.rendering(), CellType::Text);
    assert_eq!(TypeTag::Other.rendering(), CellType::Text);
}

#[test]
fn schema_is_read_in_order() {
    let a: ArrayRef = Arc::new(Int64Array::from(vec![Some(1)]));
    let b: ArrayRef = Arc::new(StringArray::from(vec![Some("x")]));
    let c: ArrayRef = Arc::new(BooleanArray::from(vec![Some(true)]));
    let batch = RecordBatch::try_from_iter(vec![("Amount", a), ("b", b), ("c", c)]).unwrap();
    let table = SessionContext::new().read_batch(batch).unwrap();
    let fields = read_schema(&table);
    let names: Vec<&str> = fields.iter().map(|f| f.name.as_str()).collect();
    assert_eq!(names, vec!["Amount", "b", "c"]);
    let tags: Vec<TypeTag> = fields.iter().map(|f| f.tag).collect();
    assert_eq!(tags, vec![TypeTag::Numeric, TypeTag::Utf8Text, TypeTag::Boolean]);
    let types: Vec<DataType> = fields.iter().map(|f| f.data_type.clone()).collect();
    assert_eq!(types, vec![DataType::Int64, DataType::Utf8, DataType::Boolean]);
}

#[test]
fn minimum_and_maximum_skip_booleans_and_bytes() {
    for aggregator in default_aggregators() {
        let extreme = matches!(aggregator, Aggregator::Min | Aggregator::Max);
        assert_eq!(aggregator.applies(TypeTag::Boolean), !extreme);
        assert_eq!(aggregator.applies(TypeTag::Binary), !extreme);
        assert!(aggregator.applies(TypeTag::Numeric));
        assert!(aggregator.applies(TypeTag::Temporal));
        assert!(aggregator.applies(TypeTag::Utf8Text));
        assert!(aggregator.applies(TypeTag::List));
        assert!(aggregator.applies(TypeTag::Other));
    }
}

#[test]
fn aggregators_have_display_names() {
    assert_eq!(Aggregator::Count.display_name(), "count");
    assert_eq!(Aggregator::NullCount.display_name(), "null_count");
    assert_eq!(Aggregator::Mean.display_name(), "mean");
    assert_eq!(Aggregator::StdDev.display_name(), "stddev");
    assert_eq!(Aggregator::Min.display_name(), "min");
    assert_eq!(Aggregator::Max.display_name(), "max");
    assert_eq!(Aggregator::Median.display_name(), "median");
    assert_eq!(Aggregator::Percentile(0).display_name(), "percentile(0)");
    assert_eq!(Aggregator::Percentile(25).display_name(), "percentile(25)");
    assert_eq!(Aggregator::Percentile(100).display_name(), "percentile(100)");
}

#[test]
fn default_set_is_the_documented_one() {
    assert_eq!(
        default_aggregators(),
        vec![
            Aggregator::Count,
            Aggregator::NullCount,
            Aggregator::Mean,
            Aggregator::StdDev,
            Aggregator::Min,
            Aggregator::Max,
            Aggregator::Median,
            Aggregator::Percentile(25),
        ]
    );
    assert_eq!(validate(&default_aggregators()), Ok(()));
}

#[test]
fn lists_of_aggregators_are_checked() {
    assert_eq!(validate(&vec![]), Err(ConfigError::NoAggregators));
    assert_eq!(validate(&vec![Aggregator::Percentile(0)]), Ok(()));
    assert_eq!(validate(&vec![Aggregator::Percentile(100)]), Ok(()));
    assert_eq!(
        validate(&vec![Aggregator::Percentile(101)]),
        Err(ConfigError::PercentileOutOfRange(101))
    );
    assert_eq!(
        validate(&vec![Aggregator::Count, Aggregator::Percentile(150), Aggregator::Percentile(200)]),
        Err(ConfigError::PercentileOutOfRange(150))
    );
    assert_eq!(validate(&vec![Aggregator::Count, Aggregator::Count]), Ok(()));
}

#[test]
fn errors_are_rendered() {
    assert_eq!(ConfigError::NoAggregators.message(), "at least one aggregator is needed");
    assert_eq!(
        ConfigError::PercentileOutOfRange(150).message(),
        "percentile should be [0, 100], but got 150"
    );
    let refused = DescribeError::Configuration(ConfigError::PercentileOutOfRange(101));
    assert_eq!(refused.message(), "percentile should be [0, 100], but got 101");
    let failed = DescribeError::Engine(DataFusionError::Plan("no such thing".to_string()));
    assert_eq!(failed.message(), "Error during planning: no such thing");
    let failed = DescribeError::Transform(DataFusionError::Execution("bad value".to_string()));
    assert_eq!(failed.message(), "Execution error: bad value");
}
