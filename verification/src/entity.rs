//! The entity renderer: the struct that stands for one stored row, with a
//! constructor that takes the fields in canonical order.

use vstd::prelude::*;
use vstd::string::*;
use crate::naming::{struct_name, to_struct_name};
use crate::render::{mapped_models, push_type, type_text, MappedColumn, MappedModel};
use crate::text::{join, push_joined, texts};

verus! {

/// The type of a field of the entity.
pub open spec fn entity_type(field: MappedModel) -> Seq<char> {
    type_text(field.mapping.target, field.mapping.entity)
}

/// The declaration of one field of the struct.
pub open spec fn field_declaration(field: MappedModel) -> Seq<char> {
    "pub "@ + field.column.name + ": "@ + entity_type(field) + ", "@
}

/// One parameter of the constructor.
pub open spec fn constructor_parameter(field: MappedModel) -> Seq<char> {
    field.column.name + ": "@ + entity_type(field)
}

/// The line of the constructor that fills one field.
pub open spec fn field_initialiser(field: MappedModel) -> Seq<char> {
    "            "@ + field.column.name + ": "@ + field.column.name + ",\n"@
}

/// The declarations of all fields, in the order of `fields`.
pub open spec fn field_declarations(fields: Seq<MappedModel>) -> Seq<Seq<char>> {
    Seq::new(fields.len(), |i: int| field_declaration(fields[i]))
}

/// The parameters of the constructor, in the order of `fields`.
pub open spec fn constructor_parameters(fields: Seq<MappedModel>) -> Seq<Seq<char>> {
    Seq::new(fields.len(), |i: int| constructor_parameter(fields[i]))
}

/// The lines that fill the fields, in the order of `fields`.
pub open spec fn field_initialisers(fields: Seq<MappedModel>) -> Seq<Seq<char>> {
    Seq::new(fields.len(), |i: int| field_initialiser(fields[i]))
}

/// The text of the entity: the struct with one field per column, then the
/// constructor with one parameter and one initialiser per column, each list in
/// the order of `fields`.
pub open spec fn entity_text(table_name: Seq<char>, fields: Seq<MappedModel>) -> Seq<char> {
    "#[derive(Debug, Clone, sqlx::FromRow, serde::Serialize, serde::Deserialize)]\n#[serde(rename_all = \"camelCase\")]\npub struct "@
        + struct_name(table_name) + " {\n    "@ + join(field_declarations(fields), "    "@)
        + "}\n\nimpl "@ + struct_name(table_name) + " {\n    /// Crea una nueva instancia de "@
        + struct_name(table_name) + "\n    pub fn new("@ + join(
        constructor_parameters(fields),
        ", "@,
    ) + ") -> Self {\n        Self {\n"@ + join(field_initialisers(fields), ""@)
        + "        }\n    }\n}\n"@
}

fn declaration_of(field: &MappedColumn) -> (out: String)
    ensures
        out@ == field_declaration(field@),
{
    let mut out = String::from_str("pub ");
    out.append(field.column.name.as_str());
    out.append(": ");
    push_type(&mut out, field.mapping.target, field.mapping.entity);
    out.append(", ");
    out
}

fn parameter_of(field: &MappedColumn) -> (out: String)
    ensures
        out@ == constructor_parameter(field@),
{
    let mut out = field.column.name.clone();
    out.append(": ");
    push_type(&mut out, field.mapping.target, field.mapping.entity);
    out
}

fn initialiser_of(field: &MappedColumn) -> (out: String)
    ensures
        out@ == field_initialiser(field@),
{
    let mut out = String::from_str("            ");
    out.append(field.column.name.as_str());
    out.append(": ");
    out.append(field.column.name.as_str());
    out.append(",\n");
    out
}

/// Renders the entity of a table from its mapped columns.
pub fn render_entity(table_name: &str, fields: &Vec<MappedColumn>) -> (out: String)
    ensures
        out@ == entity_text(table_name@, mapped_models(fields@)),
{
    let ghost models = mapped_models(fields@);
    let name = to_struct_name(table_name);
    let mut declarations: Vec<String> = Vec::new();
    let mut parameters: Vec<String> = Vec::new();
    let mut initialisers: Vec<String> = Vec::new();
    let mut i: usize = 0;
    while i < fields.len()
        invariant
            i <= fields.len(),
            models == mapped_models(fields@),
            declarations@.len() == i,
            parameters@.len() == i,
            initialisers@.len() == i,
            forall|k: int| 0 <= k < i ==> (#[trigger] declarations@[k])@ == field_declaration(models[k]),
            forall|k: int|
                0 <= k < i ==> (#[trigger] parameters@[k])@ == constructor_parameter(models[k]),
            forall|k: int| 0 <= k < i ==> (#[trigger] initialisers@[k])@ == field_initialiser(models[k]),
        decreases fields.len() - i,
    {
        declarations.push(declaration_of(&fields[i]));
        parameters.push(parameter_of(&fields[i]));
        initialisers.push(initialiser_of(&fields[i]));
        i = i + 1;
    }
    assert(texts(declarations@) == field_declarations(models));
    assert(texts(parameters@) == constructor_parameters(models));
    assert(texts(initialisers@) == field_initialisers(models));
    let mut out = String::from_str(
        "#[derive(Debug, Clone, sqlx::FromRow, serde::Serialize, serde::Deserialize)]\n#[serde(rename_all = \"camelCase\")]\npub struct ",
    );
    out.append(name.as_str());
    out.append(" {\n    ");
    push_joined(&mut out, &declarations, "    ");
    out.append("}\n\nimpl ");
    out.append(name.as_str());
    out.append(" {\n    /// Crea una nueva instancia de ");
    out.append(name.as_str());
    out.append("\n    pub fn new(");
    push_joined(&mut out, &parameters, ", ");
    out.append(") -> Self {\n        Self {\n");
    push_joined(&mut out, &initialisers, "");
    out.append("        }\n    }\n}\n");
    out
}

} // verus!
