//! The parameterised SQL text of each handler, with the names of the values
//! that fill its placeholders, and the check that both agree in number.

use vstd::prelude::*;
use vstd::string::*;
use crate::bind_order::{
    bind_order, bind_order_of, is_set_by, lemma_set_places, set_columns, set_names, set_places,
    Operation,
};
use crate::schema::{
    lemma_primary_key_index, primary_key, primary_key_index, valid_columns, TableModel, TableSpec,
};
use crate::text::{
    count_char, count_occurrences, join, lemma_count_char_bound, lemma_count_char_concat,
    lemma_count_join, lemma_total_count_zero, push_joined, texts, total_count,
};

verus! {

/// The five operations that a table's handlers offer.
#[derive(Clone, Copy, Debug, PartialEq, Eq, Structural)]
pub enum HandlerKind {
    /// One row, found by its primary key.
    FetchOne,
    /// A page of rows, cut out by a limit and an offset.
    FetchPage,
    Create,
    Update,
    Delete,
}

/// SQL text with `?` placeholders, and one name for each value bound to them,
/// in the order of the placeholders.
#[derive(Clone, Debug, PartialEq, Eq)]
pub struct Statement {
    pub sql: String,
    pub parameters: Vec<String>,
}

/// A statement as a mathematical value.
pub struct StatementModel {
    pub sql: Seq<char>,
    pub parameters: Seq<Seq<char>>,
}

impl View for Statement {
    type V = StatementModel;

    open spec fn view(&self) -> StatementModel {
        StatementModel { sql: self.sql@, parameters: texts(self.parameters@) }
    }
}

/// `n` placeholders.
pub open spec fn question_marks(n: nat) -> Seq<Seq<char>> {
    Seq::new(n, |i: int| "?"@)
}

/// One `name = ?` for each name.
pub open spec fn assignments(names: Seq<Seq<char>>) -> Seq<Seq<char>> {
    Seq::new(names.len(), |i: int| names[i] + " = ?"@)
}

/// The condition that picks the row with a given primary key.
pub open spec fn key_condition(t: TableModel) -> Seq<char> {
    " WHERE "@ + primary_key(t.columns).name + " = ?"@
}

/// The lookup of one row by its primary key.
pub open spec fn select_one_sql(t: TableModel) -> Seq<char> {
    "SELECT * FROM "@ + t.name + key_condition(t)
}

/// The listing of one page of rows.
pub open spec fn select_page_sql(t: TableModel) -> Seq<char> {
    "SELECT * FROM "@ + t.name + " LIMIT ? OFFSET ?"@
}

/// The insert: the columns that a create sets, and one placeholder for each.
pub open spec fn insert_sql(t: TableModel) -> Seq<char> {
    let names = set_names(t.columns, Operation::Create);
    "INSERT INTO "@ + t.name + " ("@ + join(names, ", "@) + ") VALUES ("@ + join(
        question_marks(names.len()),
        ", "@,
    ) + ")"@
}

/// The update: one assignment for each column that an update sets, then the
/// condition on the primary key. The list of assignments is empty where the
/// table has no such column.
pub open spec fn update_sql(t: TableModel) -> Seq<char> {
    "UPDATE "@ + t.name + " SET "@ + join(
        assignments(set_names(t.columns, Operation::Update)),
        ", "@,
    ) + key_condition(t)
}

/// The delete of the row with a given primary key.
pub open spec fn delete_sql(t: TableModel) -> Seq<char> {
    "DELETE FROM "@ + t.name + key_condition(t)
}

/// The SQL text of a handler.
pub open spec fn sql_of(t: TableModel, kind: HandlerKind) -> Seq<char> {
    match kind {
        HandlerKind::FetchOne => select_one_sql(t),
        HandlerKind::FetchPage => select_page_sql(t),
        HandlerKind::Create => insert_sql(t),
        HandlerKind::Update => update_sql(t),
        HandlerKind::Delete => delete_sql(t),
    }
}

/// The names of a handler's parameters: the bind order of the columns for the
/// statements that write, the primary key for a lookup, and the limit and the
/// offset for a page.
pub open spec fn parameters_of(t: TableModel, kind: HandlerKind) -> Seq<Seq<char>> {
    match kind {
        HandlerKind::FetchOne => seq![primary_key(t.columns).name],
        HandlerKind::FetchPage => seq!["limit"@, "offset"@],
        HandlerKind::Create => bind_order_of(t.columns, Operation::Create),
        HandlerKind::Update => bind_order_of(t.columns, Operation::Update),
        HandlerKind::Delete => bind_order_of(t.columns, Operation::Delete),
    }
}

/// The statement of a handler: its SQL text and the names of its parameters.
pub open spec fn statement_of(t: TableModel, kind: HandlerKind) -> StatementModel {
    StatementModel { sql: sql_of(t, kind), parameters: parameters_of(t, kind) }
}

fn question_mark_list(n: usize) -> (marks: Vec<String>)
    ensures
        texts(marks@) == question_marks(n as nat),
{
    let mut marks: Vec<String> = Vec::new();
    let mut i: usize = 0;
    while i < n
        invariant
            i <= n,
            marks@.len() == i,
            forall|k: int| 0 <= k < i ==> (#[trigger] marks@[k])@ == "?"@,
        decreases n - i,
    {
        marks.push(String::from_str("?"));
        i = i + 1;
    }
    marks
}

fn assignment_list(names: &Vec<String>) -> (list: Vec<String>)
    ensures
        texts(list@) == assignments(texts(names@)),
{
    let mut list: Vec<String> = Vec::new();
    let mut i: usize = 0;
    while i < names.len()
        invariant
            i <= names.len(),
            list@.len() == i,
            forall|k: int| 0 <= k < i ==> (#[trigger] list@[k])@ == names@[k]@ + " = ?"@,
        decreases names.len() - i,
    {
        let mut item = names[i].clone();
        item.append(" = ?");
        list.push(item);
        i = i + 1;
    }
    list
}

fn push_key_condition(out: &mut String, table: &TableSpec)
    ensures
        final(out)@ == old(out)@ + key_condition(table@),
{
    let key = table.primary_key_column();
    out.append(" WHERE ");
    out.append(key.name.as_str());
    out.append(" = ?");
}

fn key_parameter(table: &TableSpec) -> (parameters: Vec<String>)
    ensures
        texts(parameters@) == seq![primary_key(table@.columns).name],
{
    let key = table.primary_key_column();
    let mut parameters: Vec<String> = Vec::new();
    parameters.push(key.name.clone());
    parameters
}

/// The statement of one handler of a table.
pub fn statement(table: &TableSpec, kind: HandlerKind) -> (st: Statement)
    ensures
        st@ == statement_of(table@, kind),
{
    match kind {
        HandlerKind::FetchOne => {
            let mut sql = String::from_str("SELECT * FROM ");
            sql.append(table.name().as_str());
            push_key_condition(&mut sql, table);
            Statement { sql, parameters: key_parameter(table) }
        },
        HandlerKind::FetchPage => {
            let mut sql = String::from_str("SELECT * FROM ");
            sql.append(table.name().as_str());
            sql.append(" LIMIT ? OFFSET ?");
            let mut parameters: Vec<String> = Vec::new();
            parameters.push(String::from_str("limit"));
            parameters.push(String::from_str("offset"));
            assert(texts(parameters@) == seq!["limit"@, "offset"@]);
            Statement { sql, parameters }
        },
        HandlerKind::Create => {
            let names = set_columns(table, Operation::Create);
            let marks = question_mark_list(names.len());
            let mut sql = String::from_str("INSERT INTO ");
            sql.append(table.name().as_str());
            sql.append(" (");
            push_joined(&mut sql, &names, ", ");
            sql.append(") VALUES (");
            push_joined(&mut sql, &marks, ", ");
            sql.append(")");
            Statement { sql, parameters: names }
        },
        HandlerKind::Update => {
            let names = set_columns(table, Operation::Update);
            let list = assignment_list(&names);
            let mut sql = String::from_str("UPDATE ");
            sql.append(table.name().as_str());
            sql.append(" SET ");
            push_joined(&mut sql, &list, ", ");
            push_key_condition(&mut sql, table);
            Statement { sql, parameters: bind_order(table, Operation::Update) }
        },
        HandlerKind::Delete => {
            let mut sql = String::from_str("DELETE FROM ");
            sql.append(table.name().as_str());
            push_key_condition(&mut sql, table);
            Statement { sql, parameters: bind_order(table, Operation::Delete) }
        },
    }
}

/// The SQL text holds another number of placeholders than values are bound.
#[derive(Clone, Copy, Debug, PartialEq, Eq, Structural)]
pub struct BindOrderMismatchError {
    pub placeholders: usize,
    pub parameters: usize,
}

/// Placeholders and parameters agree in number.
pub open spec fn placeholders_match(st: StatementModel) -> bool {
    count_char(st.sql, '?') == st.parameters.len()
}

/// What is wrong with a statement's placeholders; `None` where they agree
/// with its parameters in number.
pub open spec fn mismatch_of(st: StatementModel) -> Option<BindOrderMismatchError> {
    if placeholders_match(st) {
        None
    } else {
        Some(
            BindOrderMismatchError {
                placeholders: count_char(st.sql, '?') as usize,
                parameters: st.parameters.len() as usize,
            },
        )
    }
}

/// Counts the placeholders of a statement and compares with the number of its
/// parameters.
pub fn check_placeholders(st: &Statement) -> (checked: Result<(), BindOrderMismatchError>)
    ensures
        match checked {
            Ok(_) => mismatch_of(st@) is None,
            Err(e) => mismatch_of(st@) == Some(e),
        },
{
    let placeholders = count_occurrences(st.sql.as_str(), '?');
    let parameters = st.parameters.len();
    if placeholders == parameters {
        Ok(())
    } else {
        Err(BindOrderMismatchError { placeholders, parameters })
    }
}

/// No name of the table holds a question mark.
pub open spec fn names_hold_no_placeholder(t: TableModel) -> bool {
    &&& !t.name.contains('?')
    &&& forall|i: int| 0 <= i < t.columns.len() ==> !(#[trigger] t.columns[i]).name.contains('?')
}

proof fn lemma_question_marks_count(n: nat)
    ensures
        total_count(question_marks(n), '?') == n,
    decreases n,
{
    if n > 0 {
        assert(question_marks(n).drop_last() == question_marks((n - 1) as nat));
        lemma_question_marks_count((n - 1) as nat);
        lemma_literal_counts();
    }
}

proof fn lemma_assignments_count(names: Seq<Seq<char>>)
    requires
        forall|i: int| 0 <= i < names.len() ==> !(#[trigger] names[i]).contains('?'),
    ensures
        total_count(assignments(names), '?') == names.len(),
    decreases names.len(),
{
    if names.len() > 0 {
        assert(assignments(names).drop_last() == assignments(names.drop_last()));
        lemma_assignments_count(names.drop_last());
        lemma_literal_counts();
        lemma_count_char_bound(names.last(), '?');
        lemma_count_char_concat(names.last(), " = ?"@, '?');
    }
}

/// How many question marks the fixed pieces of the statements hold.
proof fn lemma_literal_counts()
    ensures
        count_char("?"@, '?') == 1,
        count_char(", "@, '?') == 0,
        count_char(" = ?"@, '?') == 1,
        count_char(" WHERE "@, '?') == 0,
        count_char("SELECT * FROM "@, '?') == 0,
        count_char(" LIMIT ? OFFSET ?"@, '?') == 2,
        count_char("INSERT INTO "@, '?') == 0,
        count_char(" ("@, '?') == 0,
        count_char(") VALUES ("@, '?') == 0,
        count_char(")"@, '?') == 0,
        count_char("UPDATE "@, '?') == 0,
        count_char(" SET "@, '?') == 0,
        count_char("DELETE FROM "@, '?') == 0,
{
    reveal_strlit("?");
    reveal_strlit(", ");
    reveal_strlit(" = ?");
    reveal_strlit(" = ");
    reveal_strlit(" WHERE ");
    reveal_strlit("SELECT * FROM ");
    reveal_strlit(" LIMIT ? OFFSET ?");
    reveal_strlit(" LIMIT ");
    reveal_strlit(" OFFSET ");
    reveal_strlit("INSERT INTO ");
    reveal_strlit(" (");
    reveal_strlit(") VALUES (");
    reveal_strlit(")");
    reveal_strlit("UPDATE ");
    reveal_strlit(" SET ");
    reveal_strlit("DELETE FROM ");
    lemma_count_char_bound(", "@, '?');
    lemma_count_char_bound(" = "@, '?');
    lemma_count_char_bound(" WHERE "@, '?');
    lemma_count_char_bound("SELECT * FROM "@, '?');
    lemma_count_char_bound(" LIMIT "@, '?');
    lemma_count_char_bound(" OFFSET "@, '?');
    lemma_count_char_bound("INSERT INTO "@, '?');
    lemma_count_char_bound(" ("@, '?');
    lemma_count_char_bound(") VALUES ("@, '?');
    lemma_count_char_bound(")"@, '?');
    lemma_count_char_bound("UPDATE "@, '?');
    lemma_count_char_bound(" SET "@, '?');
    lemma_count_char_bound("DELETE FROM "@, '?');
    assert(count_char("?"@, '?') == 1) by {
        assert(count_char("?"@.drop_last(), '?') == 0);
    }
    assert(" = ?"@ == " = "@ + "?"@);
    lemma_count_char_concat(" = "@, "?"@, '?');
    assert(" LIMIT ? OFFSET ?"@ == " LIMIT "@ + "?"@ + " OFFSET "@ + "?"@);
    lemma_count_char_concat(" LIMIT "@, "?"@, '?');
    lemma_count_char_concat(" LIMIT "@ + "?"@, " OFFSET "@, '?');
    lemma_count_char_concat(" LIMIT "@ + "?"@ + " OFFSET "@, "?"@, '?');
}

proof fn lemma_key_condition_count(t: TableModel)
    requires
        valid_columns(t.columns),
        names_hold_no_placeholder(t),
    ensures
        count_char(key_condition(t), '?') == 1,
{
    lemma_primary_key_index(t.columns);
    lemma_literal_counts();
    let key = primary_key(t.columns).name;
    lemma_count_char_bound(key, '?');
    lemma_count_char_concat(" WHERE "@, key, '?');
    lemma_count_char_concat(" WHERE "@ + key, " = ?"@, '?');
}

proof fn lemma_set_names_hold_no_placeholder(t: TableModel, op: Operation)
    requires
        names_hold_no_placeholder(t),
    ensures
        forall|i: int|
            0 <= i < set_names(t.columns, op).len() ==> !(#[trigger] set_names(
                t.columns,
                op,
            )[i]).contains('?'),
{
    lemma_set_places(t.columns, op);
    assert forall|i: int| 0 <= i < set_names(t.columns, op).len() implies !(#[trigger] set_names(
        t.columns,
        op,
    )[i]).contains('?') by {
        assert(set_names(t.columns, op)[i] == t.columns[set_places(t.columns, op)[i]].name);
    }
}

/// Where no name of a valid table holds a question mark, each of its
/// statements has as many placeholders as parameters.
pub proof fn lemma_placeholders_match(t: TableModel, kind: HandlerKind)
    requires
        valid_columns(t.columns),
        names_hold_no_placeholder(t),
    ensures
        placeholders_match(statement_of(t, kind)),
{
    lemma_literal_counts();
    lemma_key_condition_count(t);
    lemma_count_char_bound(t.name, '?');
    match kind {
        HandlerKind::FetchOne => {
            lemma_count_char_concat("SELECT * FROM "@, t.name, '?');
            lemma_count_char_concat("SELECT * FROM "@ + t.name, key_condition(t), '?');
        },
        HandlerKind::FetchPage => {
            lemma_count_char_concat("SELECT * FROM "@, t.name, '?');
            lemma_count_char_concat("SELECT * FROM "@ + t.name, " LIMIT ? OFFSET ?"@, '?');
        },
        HandlerKind::Create => {
            let names = set_names(t.columns, Operation::Create);
            let listed = join(names, ", "@);
            let marks = join(question_marks(names.len()), ", "@);
            lemma_set_names_hold_no_placeholder(t, Operation::Create);
            lemma_total_count_zero(names, '?');
            lemma_count_join(names, ", "@, '?');
            lemma_question_marks_count(names.len());
            lemma_count_join(question_marks(names.len()), ", "@, '?');
            let a = "INSERT INTO "@ + t.name;
            let b = a + " ("@;
            let c = b + listed;
            let d = c + ") VALUES ("@;
            let e = d + marks;
            lemma_count_char_concat("INSERT INTO "@, t.name, '?');
            lemma_count_char_concat(a, " ("@, '?');
            lemma_count_char_concat(b, listed, '?');
            lemma_count_char_concat(c, ") VALUES ("@, '?');
            lemma_count_char_concat(d, marks, '?');
            lemma_count_char_concat(e, ")"@, '?');
        },
        HandlerKind::Update => {
            let names = set_names(t.columns, Operation::Update);
            let listed = join(assignments(names), ", "@);
            lemma_set_names_hold_no_placeholder(t, Operation::Update);
            lemma_assignments_count(names);
            lemma_count_join(assignments(names), ", "@, '?');
            let a = "UPDATE "@ + t.name;
            let b = a + " SET "@;
            let c = b + listed;
            lemma_count_char_concat("UPDATE "@, t.name, '?');
            lemma_count_char_concat(a, " SET "@, '?');
            lemma_count_char_concat(b, listed, '?');
            lemma_count_char_concat(c, key_condition(t), '?');
        },
        HandlerKind::Delete => {
            lemma_set_places(t.columns, Operation::Delete);
            assert(set_names(t.columns, Operation::Delete).len() == 0) by {
                if set_places(t.columns, Operation::Delete).len() > 0 {
                    let at = set_places(t.columns, Operation::Delete)[0];
                    assert(is_set_by(Operation::Delete, t.columns[at]));
                }
            }
            lemma_count_char_concat("DELETE FROM "@, t.name, '?');
            lemma_count_char_concat("DELETE FROM "@ + t.name, key_condition(t), '?');
        },
    }
}

} // verus!
