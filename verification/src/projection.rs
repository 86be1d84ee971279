//! The projection transformer: every column becomes a numeric stand-in, so
//! that one aggregation runs over columns of any type.

use datafusion::logical_expr::Expr;
use vstd::prelude::*;
use vstd::string::*;

use crate::engine::{
    alias, alias_expr, arrow_type, arrow_type_of, cast_expr, cast_to, column, column_expr,
    list_length, list_length_expr, text_length, text_length_expr,
};
use crate::schema::{class_of, views, CellType, ColumnClass, Field, FieldView};

verus! {

/// The numeric stand-in of a column: a numeric column as it is, a temporal
/// one cast to floating point, a list by its element count, any other column
/// by the length of its text rendering; each under the column's own name.
pub open spec fn proxy_expr(field: FieldView) -> Expr {
    let column = column_expr(field.name);
    match class_of(field.tag) {
        ColumnClass::Numeric => column,
        ColumnClass::Temporal => alias_expr(
            cast_expr(column, arrow_type_of(CellType::Float)),
            field.name,
        ),
        ColumnClass::NestedList => alias_expr(list_length_expr(column), field.name),
        ColumnClass::Other => alias_expr(
            text_length_expr(cast_expr(column, arrow_type_of(CellType::Text))),
            field.name,
        ),
    }
}

/// The projection that normalizes a dataset: one stand-in per field, in
/// schema order.
pub open spec fn projection(fields: Seq<FieldView>) -> Seq<Expr> {
    Seq::new(fields.len(), |i: int| proxy_expr(fields[i]))
}

/// Builds the numeric stand-in of a column.
pub fn proxy(field: &Field) -> (expr: Expr)
    ensures
        expr == proxy_expr(field@),
{
    let name = field.name.as_str();
    match field.tag.class() {
        ColumnClass::Numeric => column(name),
        ColumnClass::Temporal => alias(cast_to(column(name), arrow_type(CellType::Float)), name),
        ColumnClass::NestedList => alias(list_length(column(name)), name),
        ColumnClass::Other => alias(
            text_length(cast_to(column(name), arrow_type(CellType::Text))),
            name,
        ),
    }
}

/// Builds the projection that normalizes a dataset with the given fields.
pub fn project(fields: &Vec<Field>) -> (exprs: Vec<Expr>)
    ensures
        exprs@ == projection(views(fields@)),
{
    let n = fields.len();
    let mut exprs: Vec<Expr> = Vec::new();
    let mut i: usize = 0;
    while i < n
        invariant
            n == fields@.len(),
            i <= n,
            exprs@.len() == i,
            forall|k: int| 0 <= k < i ==> #[trigger] exprs@[k] == proxy_expr(fields@[k]@),
        decreases n - i,
    {
        exprs.push(proxy(&fields[i]));
        i = i + 1;
    }
    assert(exprs@ =~= projection(views(fields@)));
    exprs
}

} // verus!
