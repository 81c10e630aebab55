//! The one place that decides in which order column values are handed to a
//! parameterised SQL statement. Every order is cut out of the table's
//! canonical column order.

use vstd::prelude::*;
use crate::schema::{
    column_models, column_names, lemma_primary_key_index, primary_key, primary_key_index,
    valid_columns, ColumnModel, ColumnSpec, TableSpec,
};
use crate::text::texts;

verus! {

/// A statement that writes.
#[derive(Clone, Copy, Debug, PartialEq, Eq, Structural)]
pub enum Operation {
    Create,
    Update,
    Delete,
}

/// Whether the statement sets the column from a value of the caller. Storage
/// fills in what has a default there; an update never sets the primary key; a
/// delete sets nothing.
pub open spec fn is_set_by(op: Operation, c: ColumnModel) -> bool {
    match op {
        Operation::Create => !c.has_server_default,
        Operation::Update => !c.is_primary_key && !c.has_server_default,
        Operation::Delete => false,
    }
}

/// Whether the statement ends in a condition on the primary key.
pub open spec fn has_key_condition(op: Operation) -> bool {
    op != Operation::Create
}

/// The places of the columns that the statement sets, ascending.
pub open spec fn set_places(cols: Seq<ColumnModel>, op: Operation) -> Seq<int>
    decreases cols.len(),
{
    if cols.len() == 0 {
        Seq::empty()
    } else if is_set_by(op, cols.last()) {
        set_places(cols.drop_last(), op).push(cols.len() - 1)
    } else {
        set_places(cols.drop_last(), op)
    }
}

/// The names of the columns that the statement sets, in canonical order.
pub open spec fn set_names(cols: Seq<ColumnModel>, op: Operation) -> Seq<Seq<char>>
    decreases cols.len(),
{
    if cols.len() == 0 {
        Seq::empty()
    } else if is_set_by(op, cols.last()) {
        set_names(cols.drop_last(), op).push(cols.last().name)
    } else {
        set_names(cols.drop_last(), op)
    }
}

/// The column names in the order of the statement's parameters: the columns
/// that it sets, then the primary key where it has a condition on it.
pub open spec fn bind_order_of(cols: Seq<ColumnModel>, op: Operation) -> Seq<Seq<char>> {
    if has_key_condition(op) {
        set_names(cols, op).push(primary_key(cols).name)
    } else {
        set_names(cols, op)
    }
}

fn sets_column(op: Operation, column: &ColumnSpec) -> (set: bool)
    ensures
        set == is_set_by(op, column@),
{
    match op {
        Operation::Create => !column.has_server_default,
        Operation::Update => !column.is_primary_key && !column.has_server_default,
        Operation::Delete => false,
    }
}

/// The names of the columns that `op` sets, in canonical order.
pub fn set_columns(table: &TableSpec, op: Operation) -> (names: Vec<String>)
    ensures
        texts(names@) == set_names(table@.columns, op),
{
    let columns = table.columns();
    let ghost models = table@.columns;
    let mut names: Vec<String> = Vec::new();
    let mut i: usize = 0;
    while i < columns.len()
        invariant
            i <= columns.len(),
            models == column_models(columns@),
            texts(names@) == set_names(models.take(i as int), op),
        decreases columns.len() - i,
    {
        assert(models.take(i as int + 1).drop_last() == models.take(i as int));
        if sets_column(op, &columns[i]) {
            names.push(columns[i].name.clone());
        }
        i = i + 1;
    }
    assert(models.take(columns.len() as int) == models);
    names
}

/// The order in which the values of `op`'s statement are bound.
///
/// Create: every column without a default in storage. Update: every such
/// column but the primary key, then the primary key. Delete: the primary key
/// alone.
pub fn bind_order(table: &TableSpec, op: Operation) -> (order: Vec<String>)
    ensures
        texts(order@) == bind_order_of(table@.columns, op),
{
    let mut order = set_columns(table, op);
    match op {
        Operation::Create => {},
        _ => {
            let columns = table.columns();
            let at = table.primary_key_position();
            order.push(columns[at].name.clone());
        },
    }
    order
}

/// `set_places` and `set_names` walk the columns together: the names are the
/// names at the places, the places ascend, and they are exactly the places of
/// the columns that the statement sets.
pub proof fn lemma_set_places(cols: Seq<ColumnModel>, op: Operation)
    ensures
        set_places(cols, op).len() == set_names(cols, op).len(),
        set_places(cols, op).len() <= cols.len(),
        forall|k: int|
            0 <= k < set_places(cols, op).len() ==> {
                let at = #[trigger] set_places(cols, op)[k];
                &&& 0 <= at < cols.len()
                &&& is_set_by(op, cols[at])
                &&& set_names(cols, op)[k] == cols[at].name
            },
        forall|k: int, l: int|
            0 <= k < l < set_places(cols, op).len() ==> set_places(cols, op)[k] < set_places(
                cols,
                op,
            )[l],
        forall|i: int|
            0 <= i < cols.len() && is_set_by(op, #[trigger] cols[i]) ==> set_places(
                cols,
                op,
            ).contains(i),
    decreases cols.len(),
{
    if cols.len() > 0 {
        let front = cols.drop_last();
        lemma_set_places(front, op);
        let places = set_places(cols, op);
        let old_places = set_places(front, op);
        assert forall|k: int| 0 <= k < places.len() implies {
            let at = #[trigger] places[k];
            &&& 0 <= at < cols.len()
            &&& is_set_by(op, cols[at])
            &&& set_names(cols, op)[k] == cols[at].name
        } by {
            if k < old_places.len() {
                assert(front[old_places[k]] == cols[old_places[k]]);
            }
        }
        assert forall|k: int, l: int| 0 <= k < l < places.len() implies places[k] < places[l] by {
            if k < old_places.len() {
                assert(old_places[k] < front.len());
            }
        }
        assert forall|i: int| 0 <= i < cols.len() && is_set_by(op, #[trigger] cols[i]) implies places.contains(
            i,
        ) by {
            if i < front.len() {
                assert(front[i] == cols[i]);
                let k = choose|k: int| 0 <= k < old_places.len() && old_places[k] == i;
                assert(places[k] == i);
            } else {
                assert(places[places.len() - 1] == i);
            }
        }
    }
}

/// The parameters of an update end with the primary key, which stands nowhere
/// else among them; the parameters of a delete are the primary key alone.
pub proof fn lemma_key_is_bound_last(cols: Seq<ColumnModel>)
    requires
        valid_columns(cols),
    ensures
        ({
            let order = bind_order_of(cols, Operation::Update);
            &&& order.len() >= 1
            &&& order.last() == primary_key(cols).name
            &&& forall|k: int| 0 <= k < order.len() - 1 ==> order[k] != primary_key(cols).name
        }),
        bind_order_of(cols, Operation::Delete) == seq![primary_key(cols).name],
{
    lemma_primary_key_index(cols);
    lemma_set_places(cols, Operation::Update);
    lemma_set_places(cols, Operation::Delete);
    let key = primary_key_index(cols);
    let order = bind_order_of(cols, Operation::Update);
    let places = set_places(cols, Operation::Update);
    assert forall|k: int| 0 <= k < order.len() - 1 implies order[k] != primary_key(cols).name by {
        let at = places[k];
        assert(!cols[at].is_primary_key);
        assert(at != key);
    }
    assert(set_places(cols, Operation::Delete).len() == 0) by {
        if set_places(cols, Operation::Delete).len() > 0 {
            assert(is_set_by(Operation::Delete, cols[set_places(cols, Operation::Delete)[0]]));
        }
    }
}

/// The parameters of a create are the canonical column order without the
/// columns that storage fills in: nothing is added and nothing changes place.
pub proof fn lemma_create_follows_canonical_order(cols: Seq<ColumnModel>)
    ensures
        ({
            let order = bind_order_of(cols, Operation::Create);
            let places = set_places(cols, Operation::Create);
            &&& places.len() == order.len()
            &&& forall|k: int|
                0 <= k < order.len() ==> 0 <= #[trigger] places[k] < cols.len() && order[k]
                    == column_names(cols)[places[k]] && !cols[places[k]].has_server_default
            &&& forall|k: int, l: int| 0 <= k < l < order.len() ==> places[k] < places[l]
            &&& forall|i: int|
                0 <= i < cols.len() && !(#[trigger] cols[i]).has_server_default
                    ==> places.contains(i)
        }),
{
    lemma_set_places(cols, Operation::Create);
}

} // verus!
