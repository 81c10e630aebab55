//! The pipeline from a table to its three artifacts: check the schema, derive
//! the fields, check the wire names, render. A run ends with all three texts
//! or with an error; it never hands out a part.

use vstd::prelude::*;
use vstd::string::*;
use crate::bind_order::{
    bind_order_of, lemma_create_follows_canonical_order, lemma_set_places, set_places, Operation,
};
use crate::dto::{dto_text, render_dtos};
use crate::entity::{entity_text, render_entity};
use crate::handler::{first_mismatch, handlers_text, render_handlers};
use crate::naming::{
    find_wire_collision, has_wire_collision, is_first_collision, is_snake_case,
    lemma_first_collision_is_unique, lemma_snake_case_columns_do_not_collide,
    NamingCollisionError,
};
use crate::render::{field_names, lemma_fields_follow_columns, map_table, mapped_of};
use crate::schema::{
    column_models, column_names, load_table, schema_fault, valid_columns, ColumnModel, ColumnSpec,
    SchemaError, TableModel, TableSpec,
};
use crate::statement::{
    lemma_placeholders_match, names_hold_no_placeholder, BindOrderMismatchError, HandlerKind,
};

verus! {

/// The source text made for one table.
#[derive(Clone, Debug, PartialEq, Eq)]
pub struct Artifacts {
    pub entity: String,
    pub dtos: String,
    pub handlers: String,
}

/// The artifacts as mathematical values.
pub struct ArtifactsModel {
    pub entity: Seq<char>,
    pub dtos: Seq<char>,
    pub handlers: Seq<char>,
}

impl View for Artifacts {
    type V = ArtifactsModel;

    open spec fn view(&self) -> ArtifactsModel {
        ArtifactsModel { entity: self.entity@, dtos: self.dtos@, handlers: self.handlers@ }
    }
}

/// The three artifacts of a table.
#[derive(Clone, Copy, Debug, PartialEq, Eq, Structural)]
pub enum ArtifactKind {
    Entity,
    Dtos,
    Handlers,
}

/// Where an artifact is written, below the directory of all output:
/// `entities/usuarios.rs`, `dtos/usuarios_dtos.rs` and
/// `handlers/usuarios_handlers.rs` for the table `usuarios`.
pub open spec fn artifact_path_of(kind: ArtifactKind, table_name: Seq<char>) -> Seq<char> {
    match kind {
        ArtifactKind::Entity => "entities/"@ + table_name + ".rs"@,
        ArtifactKind::Dtos => "dtos/"@ + table_name + "_dtos.rs"@,
        ArtifactKind::Handlers => "handlers/"@ + table_name + "_handlers.rs"@,
    }
}

/// The path of an artifact of a table, below the directory of all output.
pub fn artifact_path(kind: ArtifactKind, table_name: &str) -> (path: String)
    ensures
        path@ == artifact_path_of(kind, table_name@),
{
    match kind {
        ArtifactKind::Entity => {
            let mut path = String::from_str("entities/");
            path.append(table_name);
            path.append(".rs");
            path
        },
        ArtifactKind::Dtos => {
            let mut path = String::from_str("dtos/");
            path.append(table_name);
            path.append("_dtos.rs");
            path
        },
        ArtifactKind::Handlers => {
            let mut path = String::from_str("handlers/");
            path.append(table_name);
            path.append("_handlers.rs");
            path
        },
    }
}

impl Artifacts {
    /// The text of one artifact.
    pub fn text(&self, kind: ArtifactKind) -> (text: &String)
        ensures
            text@ == (match kind {
                ArtifactKind::Entity => self@.entity,
                ArtifactKind::Dtos => self@.dtos,
                ArtifactKind::Handlers => self@.handlers,
            }),
    {
        match kind {
            ArtifactKind::Entity => &self.entity,
            ArtifactKind::Dtos => &self.dtos,
            ArtifactKind::Handlers => &self.handlers,
        }
    }
}

/// Why a run produced nothing.
#[derive(Clone, Copy, Debug, PartialEq, Eq, Structural)]
pub enum GenerationError {
    Schema(SchemaError),
    NamingCollision(NamingCollisionError),
    BindOrderMismatch(BindOrderMismatchError),
}

/// The text that a run produces for a table, where it produces any.
pub open spec fn artifacts_of(t: TableModel) -> ArtifactsModel {
    ArtifactsModel {
        entity: entity_text(t.name, mapped_of(t.columns)),
        dtos: dto_text(t.name, mapped_of(t.columns)),
        handlers: handlers_text(t),
    }
}

/// What a run on a loaded table ends with.
pub open spec fn is_outcome_for(t: TableModel, outcome: Result<Artifacts, GenerationError>) -> bool {
    match outcome {
        Ok(artifacts) => !has_wire_collision(t.columns) && first_mismatch(t) is None && artifacts@
            == artifacts_of(t),
        Err(GenerationError::Schema(_)) => false,
        Err(GenerationError::NamingCollision(e)) => is_first_collision(
            t.columns,
            e.first as int,
            e.second as int,
        ),
        Err(GenerationError::BindOrderMismatch(e)) => !has_wire_collision(t.columns)
            && first_mismatch(t) == Some(e),
    }
}

/// Generates the artifacts of a loaded table.
///
/// The run fails where two columns share a wire name, and where a statement
/// has another number of placeholders than parameters; the wire names are
/// looked at first.
pub fn generate_for(table: &TableSpec) -> (outcome: Result<Artifacts, GenerationError>)
    ensures
        is_outcome_for(table@, outcome),
{
    match find_wire_collision(table.columns()) {
        Some(e) => {
            return Err(GenerationError::NamingCollision(e));
        },
        None => {},
    }
    let fields = map_table(table);
    let handlers = match render_handlers(table) {
        Ok(text) => text,
        Err(e) => {
            return Err(GenerationError::BindOrderMismatch(e));
        },
    };
    let entity = render_entity(table.name().as_str(), &fields);
    let dtos = render_dtos(table.name().as_str(), &fields);
    Ok(Artifacts { entity, dtos, handlers })
}

/// What a run on a name and a list of columns ends with: the first broken
/// schema rule where the columns form no table, and otherwise what a run on
/// the table ends with.
pub open spec fn is_outcome_of(
    name: Seq<char>,
    cols: Seq<ColumnModel>,
    outcome: Result<Artifacts, GenerationError>,
) -> bool {
    match outcome {
        Err(GenerationError::Schema(e)) => schema_fault(cols) == Some(e),
        _ => schema_fault(cols) is None && is_outcome_for(
            TableModel { name, columns: cols },
            outcome,
        ),
    }
}

/// Generates the artifacts of the table that `name` and `columns` describe.
///
/// The run fails with the first broken schema rule where the columns form no
/// table, and otherwise as `generate_for` does.
pub fn generate(name: String, columns: Vec<ColumnSpec>) -> (outcome: Result<
    Artifacts,
    GenerationError,
>)
    ensures
        is_outcome_of(name@, column_models(columns@), outcome),
{
    match load_table(name, columns) {
        Ok(table) => generate_for(&table),
        Err(e) => Err(GenerationError::Schema(e)),
    }
}

/// The description of one table, as a schema source gives it.
#[derive(Clone, Debug, PartialEq, Eq)]
pub struct TableSource {
    pub name: String,
    pub columns: Vec<ColumnSpec>,
}

fn copy_of(columns: &Vec<ColumnSpec>) -> (copy: Vec<ColumnSpec>)
    ensures
        column_models(copy@) == column_models(columns@),
{
    let mut copy: Vec<ColumnSpec> = Vec::new();
    let mut i: usize = 0;
    while i < columns.len()
        invariant
            i <= columns.len(),
            copy@.len() == i,
            forall|k: int| 0 <= k < i ==> (#[trigger] copy@[k])@ == columns@[k]@,
        decreases columns.len() - i,
    {
        copy.push(columns[i].duplicate());
        i = i + 1;
    }
    copy
}

/// Generates for every table of a batch, each by itself: the outcome at a
/// place is the outcome of a run on the table at that place, whatever the
/// other tables are and however their runs end.
pub fn generate_batch(tables: &Vec<TableSource>) -> (outcomes: Vec<
    Result<Artifacts, GenerationError>,
>)
    ensures
        outcomes@.len() == tables@.len(),
        forall|i: int|
            0 <= i < tables@.len() ==> is_outcome_of(
                tables@[i].name@,
                column_models(tables@[i].columns@),
                #[trigger] outcomes@[i],
            ),
{
    let mut outcomes: Vec<Result<Artifacts, GenerationError>> = Vec::new();
    let mut i: usize = 0;
    while i < tables.len()
        invariant
            i <= tables.len(),
            outcomes@.len() == i,
            forall|k: int|
                0 <= k < i ==> is_outcome_of(
                    tables@[k].name@,
                    column_models(tables@[k].columns@),
                    #[trigger] outcomes@[k],
                ),
        decreases tables.len() - i,
    {
        let table = &tables[i];
        outcomes.push(generate(table.name.clone(), copy_of(&table.columns)));
        i = i + 1;
    }
    outcomes
}

/// A run succeeds on every valid table whose column names are snake_case and
/// whose names hold no question mark.
pub proof fn lemma_generation_succeeds(t: TableModel)
    requires
        valid_columns(t.columns),
        names_hold_no_placeholder(t),
        forall|i: int| 0 <= i < t.columns.len() ==> is_snake_case(#[trigger] t.columns[i].name),
    ensures
        !has_wire_collision(t.columns),
        first_mismatch(t) is None,
{
    lemma_snake_case_columns_do_not_collide(t.columns);
    lemma_placeholders_match(t, HandlerKind::FetchOne);
    lemma_placeholders_match(t, HandlerKind::FetchPage);
    lemma_placeholders_match(t, HandlerKind::Create);
    lemma_placeholders_match(t, HandlerKind::Update);
    lemma_placeholders_match(t, HandlerKind::Delete);
}

/// Two runs on the same table end the same way: with the same text, or with
/// the same error.
pub proof fn lemma_generation_is_repeatable(
    t: TableModel,
    first: Result<Artifacts, GenerationError>,
    second: Result<Artifacts, GenerationError>,
)
    requires
        is_outcome_for(t, first),
        is_outcome_for(t, second),
    ensures
        first is Ok <==> second is Ok,
        first is Ok ==> first->Ok_0@ == second->Ok_0@,
        first is Err ==> first->Err_0 == second->Err_0,
{
    match (first, second) {
        (
            Err(GenerationError::NamingCollision(a)),
            Err(GenerationError::NamingCollision(b)),
        ) => {
            lemma_first_collision_is_unique(
                t.columns,
                a.first as int,
                a.second as int,
                b.first as int,
                b.second as int,
            );
        },
        _ => {},
    }
}

/// Two runs on the same name and columns end the same way as well, whether
/// the columns form a table or not.
pub proof fn lemma_generation_from_source_is_repeatable(
    name: Seq<char>,
    cols: Seq<ColumnModel>,
    first: Result<Artifacts, GenerationError>,
    second: Result<Artifacts, GenerationError>,
)
    requires
        is_outcome_of(name, cols, first),
        is_outcome_of(name, cols, second),
    ensures
        first is Ok <==> second is Ok,
        first is Ok ==> first->Ok_0@ == second->Ok_0@,
        first is Err ==> first->Err_0 == second->Err_0,
{
    if schema_fault(cols) is None {
        lemma_generation_is_repeatable(TableModel { name, columns: cols }, first, second);
    }
}

/// The entity, both inputs and the parameters of a create follow one order,
/// that of the table's columns: the renderers' fields are the columns one by
/// one, and the parameters of a create are the columns without a default in
/// storage, none added and none out of place.
pub proof fn lemma_one_canonical_order(cols: Seq<ColumnModel>)
    ensures
        field_names(mapped_of(cols)) == column_names(cols),
        ({
            let order = bind_order_of(cols, Operation::Create);
            let places = set_places(cols, Operation::Create);
            &&& places.len() == order.len()
            &&& forall|k: int|
                0 <= k < order.len() ==> 0 <= #[trigger] places[k] < cols.len() && order[k]
                    == field_names(mapped_of(cols))[places[k]] && !cols[places[k]].has_server_default
            &&& forall|k: int, l: int| 0 <= k < l < order.len() ==> places[k] < places[l]
            &&& forall|i: int|
                0 <= i < cols.len() && !(#[trigger] cols[i]).has_server_default
                    ==> places.contains(i)
        }),
{
    lemma_fields_follow_columns(cols);
    lemma_create_follows_canonical_order(cols);
}

/// `to` and `back` describe one reordering of `n` places: the column at the
/// new place `i` is the one from the old place `to[i]`, and the column from
/// the old place `j` goes to the new place `back[j]`.
pub open spec fn is_reordering(to: Seq<int>, back: Seq<int>, n: nat) -> bool {
    &&& to.len() == n
    &&& back.len() == n
    &&& forall|i: int| 0 <= i < n ==> 0 <= #[trigger] to[i] < n && back[to[i]] == i
    &&& forall|j: int| 0 <= j < n ==> 0 <= #[trigger] back[j] < n && to[back[j]] == j
}

/// The columns in their new order.
pub open spec fn reordered(cols: Seq<ColumnModel>, to: Seq<int>) -> Seq<ColumnModel> {
    Seq::new(to.len(), |i: int| cols[to[i]])
}

/// Reordering the columns of a table reorders every artifact alike: the
/// fields of the entity and of both inputs move with their columns, and the
/// parameters of a create stay the same names, now in the new order of their
/// columns.
pub proof fn lemma_reordering_reorders_all(cols: Seq<ColumnModel>, to: Seq<int>, back: Seq<int>)
    requires
        is_reordering(to, back, cols.len()),
    ensures
        field_names(mapped_of(reordered(cols, to))) == Seq::new(
            cols.len(),
            |i: int| field_names(mapped_of(cols))[to[i]],
        ),
        forall|name: Seq<char>|
            bind_order_of(reordered(cols, to), Operation::Create).contains(name)
                <==> #[trigger] bind_order_of(cols, Operation::Create).contains(name),
        ({
            let order = bind_order_of(reordered(cols, to), Operation::Create);
            let places = set_places(reordered(cols, to), Operation::Create);
            &&& places.len() == order.len()
            &&& forall|k: int|
                0 <= k < order.len() ==> 0 <= #[trigger] places[k] < cols.len() && order[k]
                    == reordered(cols, to)[places[k]].name
            &&& forall|k: int, l: int| 0 <= k < l < order.len() ==> places[k] < places[l]
        }),
{
    let moved = reordered(cols, to);
    let op = Operation::Create;
    lemma_set_places(cols, op);
    lemma_set_places(moved, op);
    let old_order = bind_order_of(cols, op);
    let new_order = bind_order_of(moved, op);
    assert forall|name: Seq<char>| new_order.contains(name) <==> #[trigger] old_order.contains(
        name,
    ) by {
        if new_order.contains(name) {
            let k = choose|k: int| 0 <= k < new_order.len() && new_order[k] == name;
            let at = set_places(moved, op)[k];
            assert(moved[at] == cols[to[at]]);
            let l = choose|l: int|
                0 <= l < set_places(cols, op).len() && set_places(cols, op)[l] == to[at];
            assert(old_order[l] == name);
        }
        if old_order.contains(name) {
            let k = choose|k: int| 0 <= k < old_order.len() && old_order[k] == name;
            let at = set_places(cols, op)[k];
            assert(moved[back[at]] == cols[at]);
            let l = choose|l: int|
                0 <= l < set_places(moved, op).len() && set_places(moved, op)[l] == back[at];
            assert(new_order[l] == name);
        }
    }
}

} // verus!
