//! Running the declared rules against the values of one request. Every rule of
//! every field is looked at, so that a caller learns of all that is wrong at
//! once.

use vstd::prelude::*;
use vstd::string::*;
use crate::mapping::{rule_models, RuleModel, ValidationRule};
use crate::render::{mapped_models, MappedColumn, MappedModel};

verus! {

/// What a request holds for one field, as far as the rules look at it.
#[derive(Clone, Debug, PartialEq, Eq)]
pub enum FieldInput {
    /// The request does not name the field.
    Absent,
    /// The request sets the field to null.
    Null,
    /// The request gives a character string.
    Text(String),
    /// The request gives a value that is no character string.
    Other,
}

/// An input as a mathematical value.
pub enum FieldInputModel {
    Absent,
    Null,
    Text(Seq<char>),
    Other,
}

impl View for FieldInput {
    type V = FieldInputModel;

    open spec fn view(&self) -> FieldInputModel {
        match self {
            FieldInput::Absent => FieldInputModel::Absent,
            FieldInput::Null => FieldInputModel::Null,
            FieldInput::Text(value) => FieldInputModel::Text(value@),
            FieldInput::Other => FieldInputModel::Other,
        }
    }
}

/// The models of the inputs of a request, in order.
pub open spec fn input_models(record: Seq<FieldInput>) -> Seq<FieldInputModel> {
    Seq::new(record.len(), |i: int| record[i]@)
}

/// A rule that a field's value does not meet.
#[derive(Clone, Debug, PartialEq, Eq)]
pub struct ValidationFailed {
    pub field: String,
    pub rule: ValidationRule,
}

/// A violation as a mathematical value.
pub struct ValidationFailedModel {
    pub field: Seq<char>,
    pub rule: RuleModel,
}

impl View for ValidationFailed {
    type V = ValidationFailedModel;

    open spec fn view(&self) -> ValidationFailedModel {
        ValidationFailedModel { field: self.field@, rule: self.rule@ }
    }
}

/// The models of a list of violations, in order.
pub open spec fn failed_models(failed: Seq<ValidationFailed>) -> Seq<ValidationFailedModel> {
    Seq::new(failed.len(), |i: int| failed[i]@)
}

/// `Required` is broken by a value that is absent or null; `LengthBetween` by
/// a character string that is too short or too long, counted in characters.
pub open spec fn violates(rule: RuleModel, input: FieldInputModel) -> bool {
    match rule {
        RuleModel::Required { .. } => input is Absent || input is Null,
        RuleModel::LengthBetween { min, max } => match input {
            FieldInputModel::Text(value) => value.len() < min || value.len() > max,
            _ => false,
        },
    }
}

/// The input at a place of the request; what the request is too short for is
/// absent.
pub open spec fn input_at(record: Seq<FieldInputModel>, i: int) -> FieldInputModel {
    if 0 <= i < record.len() {
        record[i]
    } else {
        FieldInputModel::Absent
    }
}

/// The rules among `rules` that `input` breaks, in the order of the rules.
pub open spec fn rule_violations(
    field: Seq<char>,
    rules: Seq<RuleModel>,
    input: FieldInputModel,
) -> Seq<ValidationFailedModel>
    decreases rules.len(),
{
    if rules.len() == 0 {
        Seq::empty()
    } else if violates(rules.last(), input) {
        rule_violations(field, rules.drop_last(), input).push(
            ValidationFailedModel { field, rule: rules.last() },
        )
    } else {
        rule_violations(field, rules.drop_last(), input)
    }
}

/// All violations of a request: field by field in the order of the fields, the
/// input of a field being the one at the same place of the request.
pub open spec fn violations_of(
    fields: Seq<MappedModel>,
    record: Seq<FieldInputModel>,
) -> Seq<ValidationFailedModel>
    decreases fields.len(),
{
    if fields.len() == 0 {
        Seq::empty()
    } else {
        violations_of(fields.drop_last(), record) + rule_violations(
            fields.last().column.name,
            fields.last().mapping.rules,
            input_at(record, fields.len() - 1),
        )
    }
}

/// Rule `k` of field `i` is broken by the input at `i`.
pub open spec fn is_broken(
    fields: Seq<MappedModel>,
    record: Seq<FieldInputModel>,
    i: int,
    k: int,
) -> bool {
    &&& 0 <= i < fields.len()
    &&& 0 <= k < fields[i].mapping.rules.len()
    &&& violates(fields[i].mapping.rules[k], input_at(record, i))
}

/// The violation that names field `i` and its rule `k`.
pub open spec fn violation_at(fields: Seq<MappedModel>, i: int, k: int) -> ValidationFailedModel {
    ValidationFailedModel { field: fields[i].column.name, rule: fields[i].mapping.rules[k] }
}

/// The violation at place `v` of the list names a rule that is broken.
pub open spec fn names_broken_rule(
    fields: Seq<MappedModel>,
    record: Seq<FieldInputModel>,
    v: int,
) -> bool {
    exists|i: int, k: int| #[trigger]
        is_broken(fields, record, i, k) && violations_of(fields, record)[v] == violation_at(
            fields,
            i,
            k,
        )
}

proof fn lemma_rule_violations(field: Seq<char>, rules: Seq<RuleModel>, input: FieldInputModel)
    ensures
        forall|k: int|
            0 <= k < rules.len() && violates(#[trigger] rules[k], input) ==> rule_violations(
                field,
                rules,
                input,
            ).contains(ValidationFailedModel { field, rule: rules[k] }),
        forall|v: int|
            #![trigger rule_violations(field, rules, input)[v]]
            0 <= v < rule_violations(field, rules, input).len() ==> exists|k: int|
                0 <= k < rules.len() && violates(#[trigger] rules[k], input) && rule_violations(
                    field,
                    rules,
                    input,
                )[v] == (ValidationFailedModel { field, rule: rules[k] }),
    decreases rules.len(),
{
    if rules.len() > 0 {
        let front = rules.drop_last();
        let found = rule_violations(field, rules, input);
        let before = rule_violations(field, front, input);
        lemma_rule_violations(field, front, input);
        assert forall|k: int| 0 <= k < rules.len() && violates(#[trigger] rules[k], input) implies found.contains(
            ValidationFailedModel { field, rule: rules[k] },
        ) by {
            let wanted = ValidationFailedModel { field, rule: rules[k] };
            if k < front.len() {
                assert(front[k] == rules[k]);
                let v = choose|v: int| 0 <= v < before.len() && before[v] == wanted;
                assert(found[v] == wanted);
            } else {
                assert(found[found.len() - 1] == wanted);
            }
        }
        assert forall|v: int|
            #![trigger found[v]]
            0 <= v < found.len() implies exists|k: int|
            0 <= k < rules.len() && violates(#[trigger] rules[k], input) && found[v] == (
            ValidationFailedModel { field, rule: rules[k] }) by {
            if v < before.len() {
                let k = choose|k: int|
                    0 <= k < front.len() && violates(#[trigger] front[k], input) && before[v] == (
                    ValidationFailedModel { field, rule: front[k] });
                assert(rules[k] == front[k]);
            } else {
                assert(violates(rules[rules.len() - 1], input));
            }
        }
    }
}

/// The violations of a request are exactly the broken rules: each rule that an
/// input breaks is listed with its field, and nothing else is.
pub proof fn lemma_violations_are_the_broken_rules(
    fields: Seq<MappedModel>,
    record: Seq<FieldInputModel>,
)
    ensures
        forall|i: int, k: int| #[trigger]
            is_broken(fields, record, i, k) ==> violations_of(fields, record).contains(
                violation_at(fields, i, k),
            ),
        forall|v: int|
            0 <= v < violations_of(fields, record).len() ==> #[trigger] names_broken_rule(
                fields,
                record,
                v,
            ),
    decreases fields.len(),
{
    if fields.len() > 0 {
        let front = fields.drop_last();
        let last = fields.len() - 1;
        let field = fields[last];
        let input = input_at(record, last);
        let found = violations_of(fields, record);
        let before = violations_of(front, record);
        let here = rule_violations(field.column.name, field.mapping.rules, input);
        lemma_violations_are_the_broken_rules(front, record);
        lemma_rule_violations(field.column.name, field.mapping.rules, input);
        assert forall|i: int, k: int| #[trigger] is_broken(fields, record, i, k) implies found.contains(
            violation_at(fields, i, k),
        ) by {
            let wanted = violation_at(fields, i, k);
            if i < last {
                assert(is_broken(front, record, i, k));
                let v = choose|v: int| 0 <= v < before.len() && before[v] == wanted;
                assert(found[v] == wanted);
            } else {
                let v = choose|v: int| 0 <= v < here.len() && here[v] == wanted;
                assert(found[before.len() + v] == wanted);
            }
        }
        assert forall|v: int| 0 <= v < found.len() implies #[trigger] names_broken_rule(
            fields,
            record,
            v,
        ) by {
            if v < before.len() {
                assert(names_broken_rule(front, record, v));
                let (i, k) = choose|i: int, k: int| #[trigger]
                    is_broken(front, record, i, k) && before[v] == violation_at(front, i, k);
                assert(is_broken(fields, record, i, k));
            } else {
                let w = v - before.len();
                let k = choose|k: int|
                    0 <= k < field.mapping.rules.len() && violates(
                        #[trigger] field.mapping.rules[k],
                        input,
                    ) && here[w] == (ValidationFailedModel {
                        field: field.column.name,
                        rule: field.mapping.rules[k],
                    });
                assert(is_broken(fields, record, last, k));
            }
        }
    }
}

/// A request without violations breaks no rule of any field.
pub proof fn lemma_no_violation_means_no_broken_rule(
    fields: Seq<MappedModel>,
    record: Seq<FieldInputModel>,
)
    ensures
        violations_of(fields, record).len() == 0 <==> forall|i: int, k: int|
            !#[trigger] is_broken(fields, record, i, k),
{
    lemma_violations_are_the_broken_rules(fields, record);
    let found = violations_of(fields, record);
    if found.len() == 0 {
        assert forall|i: int, k: int| !#[trigger] is_broken(fields, record, i, k) by {
            if is_broken(fields, record, i, k) {
                assert(found.contains(violation_at(fields, i, k)));
            }
        }
    } else {
        assert(names_broken_rule(fields, record, 0));
    }
}

/// Whether `input` breaks `rule`.
pub fn breaks(rule: &ValidationRule, input: &FieldInput) -> (broken: bool)
    ensures
        broken == violates(rule@, input@),
{
    match rule {
        ValidationRule::Required { .. } => match input {
            FieldInput::Absent => true,
            FieldInput::Null => true,
            _ => false,
        },
        ValidationRule::LengthBetween { min, max } => match input {
            FieldInput::Text(value) => {
                let length: usize = value.as_str().unicode_len();
                length < *min as usize || length > *max as usize
            },
            _ => false,
        },
    }
}

fn copy_of(rule: &ValidationRule) -> (copy: ValidationRule)
    ensures
        copy@ == rule@,
{
    match rule {
        ValidationRule::Required { message } => ValidationRule::Required {
            message: message.clone(),
        },
        ValidationRule::LengthBetween { min, max } => ValidationRule::LengthBetween {
            min: *min,
            max: *max,
        },
    }
}

/// Runs the rules of every field against a request and collects what is
/// broken. The request gives one input per field, in the order of the fields.
pub fn validate(fields: &Vec<MappedColumn>, record: &Vec<FieldInput>) -> (failed: Vec<
    ValidationFailed,
>)
    ensures
        failed_models(failed@) == violations_of(mapped_models(fields@), input_models(record@)),
{
    let ghost models = mapped_models(fields@);
    let ghost inputs = input_models(record@);
    let absent = FieldInput::Absent;
    let mut failed: Vec<ValidationFailed> = Vec::new();
    let mut i: usize = 0;
    while i < fields.len()
        invariant
            i <= fields.len(),
            models == mapped_models(fields@),
            inputs == input_models(record@),
            absent@ == FieldInputModel::Absent,
            failed_models(failed@) == violations_of(models.take(i as int), inputs),
        decreases fields.len() - i,
    {
        let field = &fields[i];
        let input = if i < record.len() {
            &record[i]
        } else {
            &absent
        };
        let ghost rules = rule_models(field.mapping.rules@);
        let ghost before = failed_models(failed@);
        let mut k: usize = 0;
        while k < field.mapping.rules.len()
            invariant
                k <= field.mapping.rules.len(),
                rules == rule_models(field.mapping.rules@),
                failed_models(failed@) == before + rule_violations(
                    field.column.name@,
                    rules.take(k as int),
                    input@,
                ),
            decreases field.mapping.rules.len() - k,
        {
            let rule = &field.mapping.rules[k];
            proof {
                assert(rules.take(k as int + 1).drop_last() == rules.take(k as int));
            }
            if breaks(rule, input) {
                let ghost so_far = failed_models(failed@);
                failed.push(ValidationFailed { field: field.column.name.clone(), rule: copy_of(rule) });
                assert(failed_models(failed@) == so_far.push(
                    ValidationFailedModel { field: field.column.name@, rule: rule@ },
                ));
            }
            k = k + 1;
        }
        proof {
            assert(rules.take(field.mapping.rules.len() as int) == rules);
            assert(models.take(i as int + 1).drop_last() == models.take(i as int));
        }
        i = i + 1;
    }
    assert(models.take(fields.len() as int) == models);
    failed
}

} // verus!
