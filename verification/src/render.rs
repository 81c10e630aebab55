//! What the three renderers share: the columns of a table, each with the field
//! derived from it, in canonical order, and the text of a field's type.

use vstd::prelude::*;
use vstd::string::*;
use crate::mapping::{
    map_column, mapping_of, FieldMapping, FieldMappingModel, Optionality, TargetType,
};
use crate::schema::{column_models, column_names, ColumnModel, ColumnSpec, TableSpec};

verus! {

/// A column with the field derived from it.
#[derive(Clone, Debug, PartialEq, Eq)]
pub struct MappedColumn {
    pub column: ColumnSpec,
    pub mapping: FieldMapping,
}

/// A mapped column as a mathematical value.
pub struct MappedModel {
    pub column: ColumnModel,
    pub mapping: FieldMappingModel,
}

impl View for MappedColumn {
    type V = MappedModel;

    open spec fn view(&self) -> MappedModel {
        MappedModel { column: self.column@, mapping: self.mapping@ }
    }
}

/// The models of a list of mapped columns, in order.
pub open spec fn mapped_models(fields: Seq<MappedColumn>) -> Seq<MappedModel> {
    Seq::new(fields.len(), |i: int| fields[i]@)
}

/// Each column with its field, in the order of the columns.
pub open spec fn mapped_of(cols: Seq<ColumnModel>) -> Seq<MappedModel> {
    Seq::new(cols.len(), |i: int| MappedModel { column: cols[i], mapping: mapping_of(cols[i]) })
}

/// The names of the fields that a renderer walks through, in its order.
pub open spec fn field_names(fields: Seq<MappedModel>) -> Seq<Seq<char>> {
    Seq::new(fields.len(), |i: int| fields[i].column.name)
}

/// Derives the field of every column of a table, keeping the columns' order.
pub fn map_table(table: &TableSpec) -> (fields: Vec<MappedColumn>)
    ensures
        mapped_models(fields@) == mapped_of(table@.columns),
{
    let columns = table.columns();
    let ghost models = table@.columns;
    let mut fields: Vec<MappedColumn> = Vec::new();
    let mut i: usize = 0;
    while i < columns.len()
        invariant
            i <= columns.len(),
            models == column_models(columns@),
            fields@.len() == i,
            forall|k: int|
                0 <= k < i ==> (#[trigger] fields@[k])@ == (MappedModel {
                    column: models[k],
                    mapping: mapping_of(models[k]),
                }),
        decreases columns.len() - i,
    {
        let column = columns[i].duplicate();
        let mapping = map_column(&columns[i]);
        fields.push(MappedColumn { column, mapping });
        i = i + 1;
    }
    fields
}

/// The fields of a table stand in the order of its columns.
pub proof fn lemma_fields_follow_columns(cols: Seq<ColumnModel>)
    ensures
        field_names(mapped_of(cols)) == column_names(cols),
{
}

/// The name of a type in emitted code.
pub open spec fn target_text(target: TargetType) -> Seq<char> {
    match target {
        TargetType::Integer => "i32"@,
        TargetType::Text => "String"@,
        TargetType::DateTime => "chrono::NaiveDateTime"@,
    }
}

/// The type of a field: its target type, wrapped in `Option` once for each
/// way in which the field can be missing.
pub open spec fn type_text(target: TargetType, optionality: Optionality) -> Seq<char> {
    match optionality {
        Optionality::Plain => target_text(target),
        Optionality::Optional => "Option<"@ + target_text(target) + ">"@,
        Optionality::OptionalOfOptional => "Option<Option<"@ + target_text(target) + ">>"@,
    }
}

/// Appends the type of a field to `out`.
pub fn push_type(out: &mut String, target: TargetType, optionality: Optionality)
    ensures
        final(out)@ == old(out)@ + type_text(target, optionality),
{
    match optionality {
        Optionality::Plain => {},
        Optionality::Optional => {
            out.append("Option<");
        },
        Optionality::OptionalOfOptional => {
            out.append("Option<Option<");
        },
    }
    match target {
        TargetType::Integer => {
            out.append("i32");
        },
        TargetType::Text => {
            out.append("String");
        },
        TargetType::DateTime => {
            out.append("chrono::NaiveDateTime");
        },
    }
    match optionality {
        Optionality::Plain => {},
        Optionality::Optional => {
            out.append(">");
        },
        Optionality::OptionalOfOptional => {
            out.append(">>");
        },
    }
}

} // verus!
