//! The DTO renderer: the input structs of a table, one for creating and one
//! for updating a row, each field with its validation rules declared above it.

use vstd::prelude::*;
use vstd::string::*;
use crate::mapping::{rule_models, RuleModel, ValidationRule};
use crate::naming::{struct_name, to_struct_name};
use crate::render::{mapped_models, push_type, type_text, MappedColumn, MappedModel};
use crate::text::{decimal, join, push_decimal, push_joined, texts};

verus! {

/// The two inputs that a table has.
#[derive(Clone, Copy, Debug, PartialEq, Eq, Structural)]
pub enum DtoVariant {
    Create,
    Update,
}

/// The word that names a variant.
pub open spec fn variant_text(variant: DtoVariant) -> Seq<char> {
    match variant {
        DtoVariant::Create => "Create"@,
        DtoVariant::Update => "Update"@,
    }
}

/// The name of an input struct: the table's type name, then the variant,
/// written twice (`UsuariosCreateCreate`).
pub open spec fn dto_struct_name(table_name: Seq<char>, variant: DtoVariant) -> Seq<char> {
    struct_name(table_name) + variant_text(variant) + variant_text(variant)
}

/// The declaration of one rule inside `#[validate(..)]`.
pub open spec fn rule_text(rule: RuleModel) -> Seq<char> {
    match rule {
        RuleModel::Required { message } => "        required(message = \""@ + message + "\"),\n"@,
        RuleModel::LengthBetween { min, max } => "        length(min = "@ + decimal(min as nat)
            + ", max = "@ + decimal(max as nat) + ")\n"@,
    }
}

/// The declarations of a field's rules, in the order of the rules.
pub open spec fn rule_texts(rules: Seq<RuleModel>) -> Seq<Seq<char>> {
    Seq::new(rules.len(), |i: int| rule_text(rules[i]))
}

/// The type of a field of an input struct.
pub open spec fn dto_type(field: MappedModel) -> Seq<char> {
    type_text(field.mapping.target, field.mapping.dto)
}

/// One field of an input struct: its rules, then its declaration.
pub open spec fn dto_field_text(field: MappedModel) -> Seq<char> {
    "    #[validate(\n"@ + join(rule_texts(field.mapping.rules), ""@) + "    )]\n    pub "@
        + field.column.name + ": "@ + dto_type(field) + ",\n"@
}

/// The fields of an input struct, in the order of `fields`.
pub open spec fn dto_field_texts(fields: Seq<MappedModel>) -> Seq<Seq<char>> {
    Seq::new(fields.len(), |i: int| dto_field_text(fields[i]))
}

/// One input struct, its fields in the order of `fields`.
pub open spec fn dto_struct_text(
    table_name: Seq<char>,
    fields: Seq<MappedModel>,
    variant: DtoVariant,
) -> Seq<char> {
    "#[derive(Debug, Clone, Validate, Deserialize, Serialize)]\n#[serde(rename_all = \"camelCase\")]\npub struct "@
        + dto_struct_name(table_name, variant) + " {\n"@ + join(dto_field_texts(fields), ""@)
        + "}\n"@
}

/// The text of both input structs: create first, update second.
pub open spec fn dto_text(table_name: Seq<char>, fields: Seq<MappedModel>) -> Seq<char> {
    dto_struct_text(table_name, fields, DtoVariant::Create) + "\n\n"@ + dto_struct_text(
        table_name,
        fields,
        DtoVariant::Update,
    )
}

fn push_variant(out: &mut String, variant: DtoVariant)
    ensures
        final(out)@ == old(out)@ + variant_text(variant),
{
    match variant {
        DtoVariant::Create => {
            out.append("Create");
        },
        DtoVariant::Update => {
            out.append("Update");
        },
    }
}

/// The name of an input struct of a table.
pub fn to_dto_struct_name(table_name: &str, variant: DtoVariant) -> (out: String)
    ensures
        out@ == dto_struct_name(table_name@, variant),
{
    let mut out = to_struct_name(table_name);
    push_variant(&mut out, variant);
    push_variant(&mut out, variant);
    out
}

fn rule_text_of(rule: &ValidationRule) -> (out: String)
    ensures
        out@ == rule_text(rule@),
{
    match rule {
        ValidationRule::Required { message } => {
            let mut out = String::from_str("        required(message = \"");
            out.append(message.as_str());
            out.append("\"),\n");
            out
        },
        ValidationRule::LengthBetween { min, max } => {
            let mut out = String::from_str("        length(min = ");
            push_decimal(&mut out, *min);
            out.append(", max = ");
            push_decimal(&mut out, *max);
            out.append(")\n");
            out
        },
    }
}

fn dto_field_text_of(field: &MappedColumn) -> (out: String)
    ensures
        out@ == dto_field_text(field@),
{
    let ghost rules = rule_models(field.mapping.rules@);
    let mut lines: Vec<String> = Vec::new();
    let mut i: usize = 0;
    while i < field.mapping.rules.len()
        invariant
            i <= field.mapping.rules.len(),
            rules == rule_models(field.mapping.rules@),
            lines@.len() == i,
            forall|k: int| 0 <= k < i ==> (#[trigger] lines@[k])@ == rule_text(rules[k]),
        decreases field.mapping.rules.len() - i,
    {
        lines.push(rule_text_of(&field.mapping.rules[i]));
        i = i + 1;
    }
    assert(texts(lines@) == rule_texts(rules));
    let mut out = String::from_str("    #[validate(\n");
    push_joined(&mut out, &lines, "");
    out.append("    )]\n    pub ");
    out.append(field.column.name.as_str());
    out.append(": ");
    push_type(&mut out, field.mapping.target, field.mapping.dto);
    out.append(",\n");
    out
}

fn push_dto_struct(out: &mut String, table_name: &str, fields: &Vec<MappedColumn>, variant: DtoVariant)
    ensures
        final(out)@ == old(out)@ + dto_struct_text(table_name@, mapped_models(fields@), variant),
{
    let ghost models = mapped_models(fields@);
    let name = to_dto_struct_name(table_name, variant);
    let mut blocks: Vec<String> = Vec::new();
    let mut i: usize = 0;
    while i < fields.len()
        invariant
            i <= fields.len(),
            models == mapped_models(fields@),
            blocks@.len() == i,
            forall|k: int| 0 <= k < i ==> (#[trigger] blocks@[k])@ == dto_field_text(models[k]),
        decreases fields.len() - i,
    {
        blocks.push(dto_field_text_of(&fields[i]));
        i = i + 1;
    }
    assert(texts(blocks@) == dto_field_texts(models));
    out.append(
        "#[derive(Debug, Clone, Validate, Deserialize, Serialize)]\n#[serde(rename_all = \"camelCase\")]\npub struct ",
    );
    out.append(name.as_str());
    out.append(" {\n");
    push_joined(out, &blocks, "");
    out.append("}\n");
}

/// Renders both input structs of a table from its mapped columns.
pub fn render_dtos(table_name: &str, fields: &Vec<MappedColumn>) -> (out: String)
    ensures
        out@ == dto_text(table_name@, mapped_models(fields@)),
{
    let mut out = String::new();
    push_dto_struct(&mut out, table_name, fields, DtoVariant::Create);
    out.append("\n\n");
    push_dto_struct(&mut out, table_name, fields, DtoVariant::Update);
    out
}

} // verus!
