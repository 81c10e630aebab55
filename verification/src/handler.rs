//! The handler renderer: five operations per table. Each hands a
//! parameterised statement and its values, in bind order, to a storage layer
//! that is passed in, and turns what comes back into an outcome. The storage
//! layer is any type with the four operations `fetch`, `fetch_page`, `write`
//! and `delete`.

use vstd::prelude::*;
use vstd::string::*;
use crate::dto::{dto_struct_name, to_dto_struct_name, DtoVariant};
use crate::mapping::{target_of, Optionality, TargetType};
use crate::naming::{struct_name, to_struct_name};
use crate::render::{push_type, type_text};
use crate::schema::{primary_key, SqlType, TableModel, TableSpec};
use crate::statement::{
    check_placeholders, mismatch_of, statement, statement_of, BindOrderMismatchError,
    HandlerKind, Statement, StatementModel,
};
use crate::text::{join, push_joined, texts};

verus! {

/// A table's name without one final `s`: the name of one row.
pub open spec fn singular(name: Seq<char>) -> Seq<char> {
    if name.len() > 0 && name.last() == 's' {
        name.drop_last()
    } else {
        name
    }
}

/// The name of one row of a table.
pub fn to_singular(name: &str) -> (out: String)
    ensures
        out@ == singular(name@),
{
    let n: usize = name.unicode_len();
    if n > 0 && name.get_char(n - 1) == 's' {
        let front = name.substring_char(0, n - 1);
        String::from_str(front)
    } else {
        String::from_str(name)
    }
}

/// The parameter through which a handler takes the primary key.
pub open spec fn key_parameter(t: TableModel) -> Seq<char> {
    primary_key(t.columns).name + ": "@ + type_text(
        target_of(primary_key(t.columns).sql_type),
        Optionality::Plain,
    )
}

/// The comment and the signature that open a handler.
pub open spec fn signature_text(t: TableModel, kind: HandlerKind) -> Seq<char> {
    match kind {
        HandlerKind::FetchOne => "// GET\npub async fn get_"@ + singular(t.name)
            + "<S: Storage>(storage: &S, "@ + key_parameter(t) + ") -> Result<"@ + struct_name(
            t.name,
        ) + ", HandlerError> {\n"@,
        HandlerKind::FetchPage => "// GET_ALL\npub async fn get_all_"@ + t.name
            + "<S: Storage>(storage: &S, page: PaginationQuery) -> Result<Vec<"@ + struct_name(
            t.name,
        ) + ">, HandlerError> {\n"@,
        HandlerKind::Create => "// POST\npub async fn create_"@ + singular(t.name)
            + "<S: Storage>(storage: &S, item: "@ + dto_struct_name(t.name, DtoVariant::Create)
            + ") -> Result<(), HandlerError> {\n"@,
        HandlerKind::Update => "// PUT\npub async fn update_"@ + singular(t.name)
            + "<S: Storage>(storage: &S, "@ + key_parameter(t) + ", item: "@ + dto_struct_name(
            t.name,
            DtoVariant::Update,
        ) + ") -> Result<(), HandlerError> {\n"@,
        HandlerKind::Delete => "// DELETE\npub async fn delete_"@ + singular(t.name)
            + "<S: Storage>(storage: &S, "@ + key_parameter(t)
            + ") -> Result<(), HandlerError> {\n"@,
    }
}

/// What a handler does before it builds its statement: a page fills in its
/// defaults, and an input is validated, so that a bad input never reaches
/// storage.
pub open spec fn preparation_text(kind: HandlerKind) -> Seq<char> {
    match kind {
        HandlerKind::FetchPage => "    let limit = page.limit.unwrap_or(100);\n    let offset = page.offset.unwrap_or(0);\n"@,
        HandlerKind::Create => "    item.validate().map_err(HandlerError::ValidationFailed)?;\n"@,
        HandlerKind::Update => "    item.validate().map_err(HandlerError::ValidationFailed)?;\n"@,
        _ => Seq::empty(),
    }
}

/// How many of a handler's values come out of its input: all for a create, all
/// but the key at the end for an update, none otherwise.
pub open spec fn values_from_item(kind: HandlerKind, parameters: nat) -> nat {
    match kind {
        HandlerKind::Create => parameters,
        HandlerKind::Update => if parameters > 0 {
            (parameters - 1) as nat
        } else {
            0
        },
        _ => 0,
    }
}

/// The expression that hands one value to storage.
pub open spec fn argument_text(parameter: Seq<char>, from_item: bool) -> Seq<char> {
    if from_item {
        "item."@ + parameter + ".into()"@
    } else {
        parameter + ".into()"@
    }
}

/// One expression per parameter, in the order of the parameters; the first
/// `from_item` take their value out of the input.
pub open spec fn argument_texts(parameters: Seq<Seq<char>>, from_item: nat) -> Seq<Seq<char>> {
    Seq::new(parameters.len(), |i: int| argument_text(parameters[i], i < from_item))
}

/// The two lines that hold the statement and its values.
pub open spec fn statement_text(st: StatementModel, kind: HandlerKind) -> Seq<char> {
    "    let sql = \""@ + st.sql + "\";\n    let args = vec!["@ + join(
        argument_texts(st.parameters, values_from_item(kind, st.parameters.len())),
        ", "@,
    ) + "];\n"@
}

/// The arms that every handler has for a failure of storage: a missing row
/// is `NotFound`; for everything else the caller sees a fixed diagnostic, never
/// what storage reported.
pub open spec fn failure_arms() -> Seq<char> {
    "        Err(StorageError::RowNotFound) => Err(HandlerError::NotFound),\n        Err(_) => Err(HandlerError::StorageFailure(\"storage failure\".to_string())),\n    }\n}\n"@
}

/// The call into storage and the outcome made of its result. A lookup that
/// finds no row, and an update or delete that touches none, end in `NotFound`.
pub open spec fn outcome_text(kind: HandlerKind) -> Seq<char> {
    match kind {
        HandlerKind::FetchOne => "    match storage.fetch(sql, args).await {\n        Ok(Some(row)) => Ok(row),\n        Ok(None) => Err(HandlerError::NotFound),\n"@
            + failure_arms(),
        HandlerKind::FetchPage => "    match storage.fetch_page(sql, args).await {\n        Ok(rows) => Ok(rows),\n"@
            + failure_arms()
            + "\n#[derive(Debug, Deserialize)]\npub struct PaginationQuery {\n    #[serde(default = \"default_limit\")]\n    pub limit: Option<i64>,\n    #[serde(default)]\n    pub offset: Option<i64>,\n}\n\nfn default_limit() -> Option<i64> {\n    Some(100)\n}\n"@,
        HandlerKind::Create => "    match storage.write(sql, args).await {\n        Ok(_) => Ok(()),\n"@
            + failure_arms(),
        HandlerKind::Update => "    match storage.write(sql, args).await {\n        Ok(0) => Err(HandlerError::NotFound),\n        Ok(_) => Ok(()),\n"@
            + failure_arms(),
        HandlerKind::Delete => "    match storage.delete(sql, args).await {\n        Ok(0) => Err(HandlerError::NotFound),\n        Ok(_) => Ok(()),\n"@
            + failure_arms(),
    }
}

/// The text of one handler.
pub open spec fn handler_text(t: TableModel, kind: HandlerKind) -> Seq<char> {
    signature_text(t, kind) + preparation_text(kind) + statement_text(statement_of(t, kind), kind)
        + outcome_text(kind)
}

/// The text of a table's handlers: lookup, page, create, update, delete.
pub open spec fn handlers_text(t: TableModel) -> Seq<char> {
    handler_text(t, HandlerKind::FetchOne) + "\n\n"@ + handler_text(t, HandlerKind::FetchPage)
        + "\n\n"@ + handler_text(t, HandlerKind::Create) + "\n\n"@ + handler_text(
        t,
        HandlerKind::Update,
    ) + "\n\n"@ + handler_text(t, HandlerKind::Delete)
}

/// The first statement, in the order of `handlers_text`, whose placeholders
/// and parameters differ in number.
pub open spec fn first_mismatch(t: TableModel) -> Option<BindOrderMismatchError> {
    if mismatch_of(statement_of(t, HandlerKind::FetchOne)) is Some {
        mismatch_of(statement_of(t, HandlerKind::FetchOne))
    } else if mismatch_of(statement_of(t, HandlerKind::FetchPage)) is Some {
        mismatch_of(statement_of(t, HandlerKind::FetchPage))
    } else if mismatch_of(statement_of(t, HandlerKind::Create)) is Some {
        mismatch_of(statement_of(t, HandlerKind::Create))
    } else if mismatch_of(statement_of(t, HandlerKind::Update)) is Some {
        mismatch_of(statement_of(t, HandlerKind::Update))
    } else {
        mismatch_of(statement_of(t, HandlerKind::Delete))
    }
}

fn push_key_parameter(out: &mut String, table: &TableSpec)
    ensures
        final(out)@ == old(out)@ + key_parameter(table@),
{
    let key = table.primary_key_column();
    let target = match key.sql_type {
        SqlType::Integer => TargetType::Integer,
        SqlType::Text => TargetType::Text,
        SqlType::DateTime => TargetType::DateTime,
    };
    out.append(key.name.as_str());
    out.append(": ");
    push_type(out, target, Optionality::Plain);
}

fn push_signature(out: &mut String, table: &TableSpec, kind: HandlerKind)
    ensures
        final(out)@ == old(out)@ + signature_text(table@, kind),
{
    match kind {
        HandlerKind::FetchOne => {
            out.append("// GET\npub async fn get_");
            out.append(to_singular(table.name().as_str()).as_str());
            out.append("<S: Storage>(storage: &S, ");
            push_key_parameter(out, table);
            out.append(") -> Result<");
            out.append(to_struct_name(table.name().as_str()).as_str());
            out.append(", HandlerError> {\n");
        },
        HandlerKind::FetchPage => {
            out.append("// GET_ALL\npub async fn get_all_");
            out.append(table.name().as_str());
            out.append("<S: Storage>(storage: &S, page: PaginationQuery) -> Result<Vec<");
            out.append(to_struct_name(table.name().as_str()).as_str());
            out.append(">, HandlerError> {\n");
        },
        HandlerKind::Create => {
            out.append("// POST\npub async fn create_");
            out.append(to_singular(table.name().as_str()).as_str());
            out.append("<S: Storage>(storage: &S, item: ");
            out.append(to_dto_struct_name(table.name().as_str(), DtoVariant::Create).as_str());
            out.append(") -> Result<(), HandlerError> {\n");
        },
        HandlerKind::Update => {
            out.append("// PUT\npub async fn update_");
            out.append(to_singular(table.name().as_str()).as_str());
            out.append("<S: Storage>(storage: &S, ");
            push_key_parameter(out, table);
            out.append(", item: ");
            out.append(to_dto_struct_name(table.name().as_str(), DtoVariant::Update).as_str());
            out.append(") -> Result<(), HandlerError> {\n");
        },
        HandlerKind::Delete => {
            out.append("// DELETE\npub async fn delete_");
            out.append(to_singular(table.name().as_str()).as_str());
            out.append("<S: Storage>(storage: &S, ");
            push_key_parameter(out, table);
            out.append(") -> Result<(), HandlerError> {\n");
        },
    }
}

fn push_preparation(out: &mut String, kind: HandlerKind)
    ensures
        final(out)@ == old(out)@ + preparation_text(kind),
{
    match kind {
        HandlerKind::FetchPage => {
            out.append(
                "    let limit = page.limit.unwrap_or(100);\n    let offset = page.offset.unwrap_or(0);\n",
            );
        },
        HandlerKind::Create => {
            out.append("    item.validate().map_err(HandlerError::ValidationFailed)?;\n");
        },
        HandlerKind::Update => {
            out.append("    item.validate().map_err(HandlerError::ValidationFailed)?;\n");
        },
        _ => {},
    }
}

fn push_statement(out: &mut String, st: &Statement, kind: HandlerKind)
    ensures
        final(out)@ == old(out)@ + statement_text(st@, kind),
{
    let n: usize = st.parameters.len();
    let from_item: usize = match kind {
        HandlerKind::Create => n,
        HandlerKind::Update => if n > 0 {
            n - 1
        } else {
            0
        },
        _ => 0,
    };
    let ghost parameters = texts(st.parameters@);
    let mut arguments: Vec<String> = Vec::new();
    let mut i: usize = 0;
    while i < n
        invariant
            i <= n,
            n == st.parameters@.len(),
            parameters == texts(st.parameters@),
            from_item == values_from_item(kind, n as nat),
            arguments@.len() == i,
            forall|k: int|
                0 <= k < i ==> (#[trigger] arguments@[k])@ == argument_text(
                    parameters[k],
                    k < from_item,
                ),
        decreases n - i,
    {
        let mut argument = String::new();
        if i < from_item {
            argument.append("item.");
        }
        argument.append(st.parameters[i].as_str());
        argument.append(".into()");
        arguments.push(argument);
        i = i + 1;
    }
    assert(texts(arguments@) == argument_texts(parameters, from_item as nat));
    out.append("    let sql = \"");
    out.append(st.sql.as_str());
    out.append("\";\n    let args = vec![");
    push_joined(out, &arguments, ", ");
    out.append("];\n");
}

fn push_failure_arms(out: &mut String)
    ensures
        final(out)@ == old(out)@ + failure_arms(),
{
    out.append(
        "        Err(StorageError::RowNotFound) => Err(HandlerError::NotFound),\n        Err(_) => Err(HandlerError::StorageFailure(\"storage failure\".to_string())),\n    }\n}\n",
    );
}

fn push_outcome(out: &mut String, kind: HandlerKind)
    ensures
        final(out)@ == old(out)@ + outcome_text(kind),
{
    match kind {
        HandlerKind::FetchOne => {
            out.append(
                "    match storage.fetch(sql, args).await {\n        Ok(Some(row)) => Ok(row),\n        Ok(None) => Err(HandlerError::NotFound),\n",
            );
            push_failure_arms(out);
        },
        HandlerKind::FetchPage => {
            out.append(
                "    match storage.fetch_page(sql, args).await {\n        Ok(rows) => Ok(rows),\n",
            );
            push_failure_arms(out);
            out.append(
                "\n#[derive(Debug, Deserialize)]\npub struct PaginationQuery {\n    #[serde(default = \"default_limit\")]\n    pub limit: Option<i64>,\n    #[serde(default)]\n    pub offset: Option<i64>,\n}\n\nfn default_limit() -> Option<i64> {\n    Some(100)\n}\n",
            );
        },
        HandlerKind::Create => {
            out.append("    match storage.write(sql, args).await {\n        Ok(_) => Ok(()),\n");
            push_failure_arms(out);
        },
        HandlerKind::Update => {
            out.append(
                "    match storage.write(sql, args).await {\n        Ok(0) => Err(HandlerError::NotFound),\n        Ok(_) => Ok(()),\n",
            );
            push_failure_arms(out);
        },
        HandlerKind::Delete => {
            out.append(
                "    match storage.delete(sql, args).await {\n        Ok(0) => Err(HandlerError::NotFound),\n        Ok(_) => Ok(()),\n",
            );
            push_failure_arms(out);
        },
    }
}

/// Appends one handler to `out`, unless the placeholders of its statement and
/// its parameters differ in number; then `out` stays as it was.
fn push_handler(out: &mut String, table: &TableSpec, kind: HandlerKind) -> (pushed: Result<
    (),
    BindOrderMismatchError,
>)
    ensures
        match pushed {
            Ok(_) => mismatch_of(statement_of(table@, kind)) is None && final(out)@ == old(out)@
                + handler_text(table@, kind),
            Err(e) => mismatch_of(statement_of(table@, kind)) == Some(e) && final(out)@ == old(
                out,
            )@,
        },
{
    let st = statement(table, kind);
    match check_placeholders(&st) {
        Ok(_) => {},
        Err(e) => {
            return Err(e);
        },
    }
    push_signature(out, table, kind);
    push_preparation(out, kind);
    push_statement(out, &st, kind);
    push_outcome(out, kind);
    Ok(())
}

/// Renders the handlers of a table.
///
/// Each statement is checked as it is built: where the SQL text of one holds
/// another number of placeholders than it has parameters, no text is returned
/// and the first such statement is reported.
pub fn render_handlers(table: &TableSpec) -> (rendered: Result<String, BindOrderMismatchError>)
    ensures
        match rendered {
            Ok(out) => first_mismatch(table@) is None && out@ == handlers_text(table@),
            Err(e) => first_mismatch(table@) == Some(e),
        },
{
    let mut out = String::new();
    match push_handler(&mut out, table, HandlerKind::FetchOne) {
        Ok(_) => {},
        Err(e) => {
            return Err(e);
        },
    }
    out.append("\n\n");
    match push_handler(&mut out, table, HandlerKind::FetchPage) {
        Ok(_) => {},
        Err(e) => {
            return Err(e);
        },
    }
    out.append("\n\n");
    match push_handler(&mut out, table, HandlerKind::Create) {
        Ok(_) => {},
        Err(e) => {
            return Err(e);
        },
    }
    out.append("\n\n");
    match push_handler(&mut out, table, HandlerKind::Update) {
        Ok(_) => {},
        Err(e) => {
            return Err(e);
        },
    }
    out.append("\n\n");
    match push_handler(&mut out, table, HandlerKind::Delete) {
        Ok(_) => {},
        Err(e) => {
            return Err(e);
        },
    }
    Ok(out)
}

} // verus!
