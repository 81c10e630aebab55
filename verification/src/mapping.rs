//! From a column to the field that stands for it: its type in emitted code,
//! how often it is wrapped in `Option` on the entity and on the input side, and
//! the validation rules that the input side declares.

use vstd::prelude::*;
use vstd::string::*;
use crate::schema::{ColumnModel, ColumnSpec, SqlType};

verus! {

/// The type of a field in emitted code.
#[derive(Clone, Copy, Debug, PartialEq, Eq, Structural)]
pub enum TargetType {
    /// `i32`
    Integer,
    /// `String`
    Text,
    /// `chrono::NaiveDateTime`
    DateTime,
}

/// How a field can be missing.
#[derive(Clone, Copy, Debug, PartialEq, Eq, Structural)]
pub enum Optionality {
    /// The value is always there.
    Plain,
    /// One way to be missing: NULL in storage, or left out by the caller.
    Optional,
    /// Two ways: left out by the caller, or given as null.
    OptionalOfOptional,
}

/// A rule that an input value has to meet.
#[derive(Clone, Debug, PartialEq, Eq)]
pub enum ValidationRule {
    /// The value must be given; `message` is shown where it is not.
    Required { message: String },
    /// The value's length in characters lies between `min` and `max`.
    LengthBetween { min: u32, max: u32 },
}

/// A rule as a mathematical value.
pub enum RuleModel {
    Required { message: Seq<char> },
    LengthBetween { min: u32, max: u32 },
}

impl View for ValidationRule {
    type V = RuleModel;

    open spec fn view(&self) -> RuleModel {
        match self {
            ValidationRule::Required { message } => RuleModel::Required { message: message@ },
            ValidationRule::LengthBetween { min, max } => RuleModel::LengthBetween {
                min: *min,
                max: *max,
            },
        }
    }
}

/// The models of a list of rules, in order.
pub open spec fn rule_models(rules: Seq<ValidationRule>) -> Seq<RuleModel> {
    Seq::new(rules.len(), |i: int| rules[i]@)
}

/// What the generator derives from one column.
#[derive(Clone, Debug, PartialEq, Eq)]
pub struct FieldMapping {
    pub target: TargetType,
    /// On the entity: `Plain` or `Optional`.
    pub entity: Optionality,
    /// On the create and update inputs.
    pub dto: Optionality,
    /// The rules in the order in which they are declared.
    pub rules: Vec<ValidationRule>,
}

/// A mapping as a mathematical value.
pub struct FieldMappingModel {
    pub target: TargetType,
    pub entity: Optionality,
    pub dto: Optionality,
    pub rules: Seq<RuleModel>,
}

impl View for FieldMapping {
    type V = FieldMappingModel;

    open spec fn view(&self) -> FieldMappingModel {
        FieldMappingModel {
            target: self.target,
            entity: self.entity,
            dto: self.dto,
            rules: rule_models(self.rules@),
        }
    }
}

/// The type in emitted code that holds a value of an SQL type.
pub open spec fn target_of(sql_type: SqlType) -> TargetType {
    match sql_type {
        SqlType::Integer => TargetType::Integer,
        SqlType::Text => TargetType::Text,
        SqlType::DateTime => TargetType::DateTime,
    }
}

/// The caller has to give the value: the column is the primary key, or it
/// takes no NULL and storage has no default for it.
pub open spec fn is_required(c: ColumnModel) -> bool {
    c.is_primary_key || (!c.nullable && !c.has_server_default)
}

/// The entity's field is optional where storage may hold NULL; the primary key
/// never is.
pub open spec fn entity_optionality(c: ColumnModel) -> Optionality {
    if c.nullable && !c.is_primary_key {
        Optionality::Optional
    } else {
        Optionality::Plain
    }
}

/// An input field that is not required may be left out; where the column also
/// takes NULL, it may be given as null as well.
pub open spec fn dto_optionality(c: ColumnModel) -> Optionality {
    if is_required(c) {
        Optionality::Plain
    } else if c.nullable {
        Optionality::OptionalOfOptional
    } else {
        Optionality::Optional
    }
}

/// The text shown where a required value is missing.
pub open spec fn required_message(name: Seq<char>) -> Seq<char> {
    "El campo "@ + name + " es requerido"@
}

/// The rules of a column: `Required` where the value must be given, then
/// `LengthBetween` from 1 to the length limit where the column has one.
pub open spec fn rules_of(c: ColumnModel) -> Seq<RuleModel> {
    let required = if is_required(c) {
        seq![RuleModel::Required { message: required_message(c.name) }]
    } else {
        Seq::empty()
    };
    let length = match c.max_length {
        Some(limit) => seq![RuleModel::LengthBetween { min: 1, max: limit }],
        None => Seq::empty(),
    };
    required + length
}

/// The field that stands for a column.
pub open spec fn mapping_of(c: ColumnModel) -> FieldMappingModel {
    FieldMappingModel {
        target: target_of(c.sql_type),
        entity: entity_optionality(c),
        dto: dto_optionality(c),
        rules: rules_of(c),
    }
}

/// Whether the caller has to give the column's value.
pub fn column_is_required(column: &ColumnSpec) -> (required: bool)
    ensures
        required == is_required(column@),
{
    column.is_primary_key || (!column.nullable && !column.has_server_default)
}

/// Derives the field of a column. Every column has one.
pub fn map_column(column: &ColumnSpec) -> (mapping: FieldMapping)
    ensures
        mapping@ == mapping_of(column@),
{
    let target = match column.sql_type {
        SqlType::Integer => TargetType::Integer,
        SqlType::Text => TargetType::Text,
        SqlType::DateTime => TargetType::DateTime,
    };
    let required = column_is_required(column);
    let entity = if column.nullable && !column.is_primary_key {
        Optionality::Optional
    } else {
        Optionality::Plain
    };
    let dto = if required {
        Optionality::Plain
    } else if column.nullable {
        Optionality::OptionalOfOptional
    } else {
        Optionality::Optional
    };
    let mut rules: Vec<ValidationRule> = Vec::new();
    if required {
        let mut message = String::from_str("El campo ");
        message.append(column.name.as_str());
        message.append(" es requerido");
        rules.push(ValidationRule::Required { message });
    }
    match column.max_length {
        Some(limit) => {
            rules.push(ValidationRule::LengthBetween { min: 1, max: limit });
        },
        None => {},
    }
    assert(rule_models(rules@) == rules_of(column@));
    FieldMapping { target, entity, dto, rules }
}

/// A column that takes no NULL, has no default in storage and is not the
/// primary key has the rule `Required`.
pub proof fn lemma_required_rule(c: ColumnModel)
    requires
        !c.nullable,
        !c.has_server_default,
        !c.is_primary_key,
    ensures
        mapping_of(c).rules.contains(RuleModel::Required { message: required_message(c.name) }),
{
    assert(mapping_of(c).rules[0] == RuleModel::Required { message: required_message(c.name) });
}

/// A character-string column with the length limit `limit` has the rule
/// `LengthBetween` from 1 to `limit`. Its type is a plain string where the
/// column takes no NULL, and an optional string where it does, but for the
/// primary key, which is never optional.
pub proof fn lemma_text_length_rule(c: ColumnModel, limit: u32)
    requires
        c.sql_type == SqlType::Text,
        c.max_length == Some(limit),
    ensures
        mapping_of(c).rules.contains(RuleModel::LengthBetween { min: 1, max: limit }),
        mapping_of(c).target == TargetType::Text,
        !c.nullable ==> mapping_of(c).entity == Optionality::Plain,
        c.nullable && !c.is_primary_key ==> mapping_of(c).entity == Optionality::Optional,
        c.nullable && c.is_primary_key ==> mapping_of(c).entity == Optionality::Plain,
{
    let rules = mapping_of(c).rules;
    assert(rules[rules.len() - 1] == RuleModel::LengthBetween { min: 1, max: limit });
}

} // verus!
