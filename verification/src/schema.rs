//! Fields of a dataset and how their declared types are classified.

use datafusion::arrow::datatypes::DataType;
use datafusion::dataframe::DataFrame;
use vstd::prelude::*;

use crate::engine::{
    clone_type, columns, is_numeric, is_temporal, numeric_type, schema_of, shape_of,
    temporal_type, type_shape,
};

verus! {

/// What a declared type is, apart from being numeric or temporal.
#[derive(Debug, Clone, Copy, PartialEq, Eq, Structural)]
pub enum TypeShape {
    /// UTF-8 text.
    Text,
    /// Opaque bytes.
    Binary,
    /// True or false.
    Boolean,
    /// A list of elements.
    List,
    /// A list of elements with 64-bit offsets.
    LargeList,
    /// None of the above.
    Plain,
}

/// The kind of value a summary cell is rendered as.
#[derive(Debug, Clone, Copy, PartialEq, Eq, Structural)]
pub enum CellType {
    /// 64-bit floating point.
    Float,
    /// UTF-8 text.
    Text,
}

/// The declared type of a field, as far as profiling cares.
#[derive(Debug, Clone, Copy, PartialEq, Eq, Structural)]
pub enum TypeTag {
    Numeric,
    Temporal,
    Utf8Text,
    Binary,
    Boolean,
    List,
    Other,
}

/// The four ways a column is normalized before aggregation.
#[derive(Debug, Clone, Copy, PartialEq, Eq, Structural)]
pub enum ColumnClass {
    Numeric,
    Temporal,
    NestedList,
    Other,
}

/// One column of a dataset: its name, its tag, and the engine's own
/// description of its type, kept to restore the column for display.
#[derive(Debug)]
pub struct Field {
    pub name: String,
    pub tag: TypeTag,
    pub data_type: DataType,
}

/// The tag of a type, from what the engine tells of it. The numeric family
/// is looked at first, then the temporal one, then the shape. Both kinds of
/// list are lists.
pub open spec fn tag_of(numeric: bool, temporal: bool, shape: TypeShape) -> TypeTag {
    if numeric {
        TypeTag::Numeric
    } else if temporal {
        TypeTag::Temporal
    } else {
        match shape {
            TypeShape::List => TypeTag::List,
            TypeShape::LargeList => TypeTag::List,
            TypeShape::Text => TypeTag::Utf8Text,
            TypeShape::Binary => TypeTag::Binary,
            TypeShape::Boolean => TypeTag::Boolean,
            TypeShape::Plain => TypeTag::Other,
        }
    }
}

/// The class of a tag: numeric, temporal and list tags have a class of
/// their own, every other tag is `Other`.
pub open spec fn class_of(tag: TypeTag) -> ColumnClass {
    match tag {
        TypeTag::Numeric => ColumnClass::Numeric,
        TypeTag::Temporal => ColumnClass::Temporal,
        TypeTag::List => ColumnClass::NestedList,
        _ => ColumnClass::Other,
    }
}

/// How the cells of a column are rendered in a summary row: numeric columns
/// as floating point, temporal ones on the floating-point scale they were
/// normalized to, every other column as text.
pub open spec fn rendering_of(tag: TypeTag) -> CellType {
    match tag {
        TypeTag::Numeric => CellType::Float,
        TypeTag::Temporal => CellType::Float,
        _ => CellType::Text,
    }
}

/// The tag that the engine's description of a type gives.
pub open spec fn tag_of_type(data_type: DataType) -> TypeTag {
    tag_of(numeric_type(data_type), temporal_type(data_type), shape_of(data_type))
}

/// A field as contracts see it: the characters of its name, its tag and
/// the engine's description of its type.
pub struct FieldView {
    pub name: Seq<char>,
    pub tag: TypeTag,
    pub data_type: DataType,
}

impl View for Field {
    type V = FieldView;

    open spec fn view(&self) -> FieldView {
        FieldView { name: self.name@, tag: self.tag, data_type: self.data_type }
    }
}

/// The views of a list of fields.
pub open spec fn views(fields: Seq<Field>) -> Seq<FieldView> {
    Seq::new(fields.len(), |i: int| fields[i]@)
}

/// The fields of a dataset, in schema order, each with the tag that the
/// engine's description of its type gives.
pub open spec fn fields_of(table: DataFrame) -> Seq<FieldView> {
    Seq::new(
        schema_of(table).len(),
        |i: int|
            FieldView {
                name: schema_of(table)[i].0,
                tag: tag_of_type(schema_of(table)[i].1),
                data_type: schema_of(table)[i].1,
            },
    )
}

/// Computes the tag of a type from what the engine tells of it.
pub fn type_tag(numeric: bool, temporal: bool, shape: TypeShape) -> (tag: TypeTag)
    ensures
        tag == tag_of(numeric, temporal, shape),
{
    if numeric {
        TypeTag::Numeric
    } else if temporal {
        TypeTag::Temporal
    } else {
        match shape {
            TypeShape::List => TypeTag::List,
            TypeShape::LargeList => TypeTag::List,
            TypeShape::Text => TypeTag::Utf8Text,
            TypeShape::Binary => TypeTag::Binary,
            TypeShape::Boolean => TypeTag::Boolean,
            TypeShape::Plain => TypeTag::Other,
        }
    }
}

impl TypeTag {
    /// Asks the engine about `data_type` and computes its tag.
    pub fn of(data_type: &DataType) -> (tag: TypeTag)
        ensures
            tag == tag_of_type(*data_type),
    {
        type_tag(is_numeric(data_type), is_temporal(data_type), type_shape(data_type))
    }

    /// The class of this tag.
    pub fn class(&self) -> (class: ColumnClass)
        ensures
            class == class_of(*self),
    {
        match self {
            TypeTag::Numeric => ColumnClass::Numeric,
            TypeTag::Temporal => ColumnClass::Temporal,
            TypeTag::List => ColumnClass::NestedList,
            _ => ColumnClass::Other,
        }
    }

    /// How cells of a column with this tag are rendered in a summary row.
    pub fn rendering(&self) -> (cell: CellType)
        ensures
            cell == rendering_of(*self),
    {
        match self {
            TypeTag::Numeric => CellType::Float,
            TypeTag::Temporal => CellType::Float,
            _ => CellType::Text,
        }
    }
}

impl Field {
    /// A field with the tag that the engine's description of its type gives.
    pub fn new(name: String, data_type: DataType) -> (field: Field)
        ensures
            field@ == (FieldView { name: name@, tag: tag_of_type(data_type), data_type }),
    {
        let tag = TypeTag::of(&data_type);
        Field { name, tag, data_type }
    }
}

/// Classifies a field by the tag of its declared type.
pub fn classify(field: &Field) -> (class: ColumnClass)
    ensures
        class == class_of(field.tag),
{
    field.tag.class()
}

/// Reads the fields of a dataset, in schema order.
pub fn read_schema(table: &DataFrame) -> (fields: Vec<Field>)
    ensures
        views(fields@) == fields_of(*table),
{
    let listed = columns(table);
    let n = listed.len();
    let mut fields: Vec<Field> = Vec::new();
    let mut i: usize = 0;
    while i < n
        invariant
            n == listed@.len(),
            n == schema_of(*table).len(),
            i <= n,
            fields@.len() == i,
            forall|k: int|
                0 <= k < n ==> (#[trigger] listed@[k]).0@ == schema_of(*table)[k].0 && listed@[k].1
                    == schema_of(*table)[k].1,
            forall|k: int| 0 <= k < i ==> (#[trigger] fields@[k])@ == fields_of(*table)[k],
        decreases n - i,
    {
        let name = listed[i].0.clone();
        let data_type = clone_type(&listed[i].1);
        fields.push(Field::new(name, data_type));
        i = i + 1;
    }
    assert(views(fields@) =~= fields_of(*table));
    fields
}

} // verus!
