//! The schema model: one table as an ordered list of columns. The order of the
//! columns is the canonical order that every artifact and every SQL parameter
//! list follows.

use vstd::prelude::*;
use vstd::string::*;

verus! {

/// The SQL type of a column, as far as the generator tells types apart.
#[derive(Clone, Copy, Debug, PartialEq, Eq, Structural)]
pub enum SqlType {
    /// Whole numbers.
    Integer,
    /// Character strings; the only type that takes a length limit.
    Text,
    /// A date with a time of day.
    DateTime,
}

/// The type that a schema source means by `name`: `integer`, `string` or
/// `datetime`.
pub open spec fn sql_type_named(name: Seq<char>) -> Option<SqlType> {
    if name == "integer"@ {
        Some(SqlType::Integer)
    } else if name == "string"@ {
        Some(SqlType::Text)
    } else if name == "datetime"@ {
        Some(SqlType::DateTime)
    } else {
        None
    }
}

impl SqlType {
    /// Reads the name of a type as a schema source writes it; `None` for any
    /// other word.
    pub fn from_name(name: &str) -> (sql_type: Option<SqlType>)
        ensures
            sql_type == sql_type_named(name@),
    {
        let name = String::from_str(name);
        if name == String::from_str("integer") {
            Some(SqlType::Integer)
        } else if name == String::from_str("string") {
            Some(SqlType::Text)
        } else if name == String::from_str("datetime") {
            Some(SqlType::DateTime)
        } else {
            None
        }
    }
}

/// One column as the schema source describes it.
#[derive(Clone, Debug, PartialEq, Eq)]
pub struct ColumnSpec {
    pub name: String,
    pub sql_type: SqlType,
    pub nullable: bool,
    /// The longest value the column stores, counted in characters.
    pub max_length: Option<u32>,
    pub is_primary_key: bool,
    /// Storage fills the column in when a statement leaves it out.
    pub has_server_default: bool,
}

/// A column as a mathematical value.
pub struct ColumnModel {
    pub name: Seq<char>,
    pub sql_type: SqlType,
    pub nullable: bool,
    pub max_length: Option<u32>,
    pub is_primary_key: bool,
    pub has_server_default: bool,
}

impl View for ColumnSpec {
    type V = ColumnModel;

    open spec fn view(&self) -> ColumnModel {
        ColumnModel {
            name: self.name@,
            sql_type: self.sql_type,
            nullable: self.nullable,
            max_length: self.max_length,
            is_primary_key: self.is_primary_key,
            has_server_default: self.has_server_default,
        }
    }
}

impl ColumnSpec {
    /// A column that takes no NULL, has no length limit and no default in
    /// storage, and is not the primary key.
    pub fn new(name: &str, sql_type: SqlType) -> (column: Self)
        ensures
            column@ == (ColumnModel {
                name: name@,
                sql_type,
                nullable: false,
                max_length: None,
                is_primary_key: false,
                has_server_default: false,
            }),
    {
        ColumnSpec {
            name: String::from_str(name),
            sql_type,
            nullable: false,
            max_length: None,
            is_primary_key: false,
            has_server_default: false,
        }
    }

    /// A second column with the same description.
    pub fn duplicate(&self) -> (column: Self)
        ensures
            column@ == self@,
    {
        ColumnSpec {
            name: self.name.clone(),
            sql_type: self.sql_type,
            nullable: self.nullable,
            max_length: self.max_length,
            is_primary_key: self.is_primary_key,
            has_server_default: self.has_server_default,
        }
    }

    /// The same column, taking NULL.
    pub fn nullable(self) -> (column: Self)
        ensures
            column@ == (ColumnModel { nullable: true, ..self@ }),
    {
        ColumnSpec { nullable: true, ..self }
    }

    /// The same column, with a length limit.
    pub fn with_max_length(self, limit: u32) -> (column: Self)
        ensures
            column@ == (ColumnModel { max_length: Some(limit), ..self@ }),
    {
        ColumnSpec { max_length: Some(limit), ..self }
    }

    /// The same column, as the primary key.
    pub fn primary_key(self) -> (column: Self)
        ensures
            column@ == (ColumnModel { is_primary_key: true, ..self@ }),
    {
        ColumnSpec { is_primary_key: true, ..self }
    }

    /// The same column, with a default in storage.
    pub fn server_default(self) -> (column: Self)
        ensures
            column@ == (ColumnModel { has_server_default: true, ..self@ }),
    {
        ColumnSpec { has_server_default: true, ..self }
    }
}

/// The models of a list of columns, in order.
pub open spec fn column_models(cols: Seq<ColumnSpec>) -> Seq<ColumnModel> {
    Seq::new(cols.len(), |i: int| cols[i]@)
}

/// A table as a mathematical value.
pub struct TableModel {
    pub name: Seq<char>,
    pub columns: Seq<ColumnModel>,
}

/// Why a list of columns is no table.
#[derive(Clone, Copy, Debug, PartialEq, Eq, Structural)]
pub enum SchemaError {
    /// Two columns share a name.
    DuplicateColumn,
    /// No column is the primary key.
    MissingPrimaryKey,
    /// More than one column is the primary key.
    MultiplePrimaryKeys,
    /// A column that is no character string has a length limit.
    LengthOnNonText,
}

/// Two columns at different places share a name.
pub open spec fn has_duplicate_name(cols: Seq<ColumnModel>) -> bool {
    exists|i: int, j: int| 0 <= i < j < cols.len() && cols[i].name == cols[j].name
}

/// How many columns are marked as the primary key.
pub open spec fn primary_key_count(cols: Seq<ColumnModel>) -> nat
    decreases cols.len(),
{
    if cols.len() == 0 {
        0
    } else {
        primary_key_count(cols.drop_last()) + if cols.last().is_primary_key {
            1nat
        } else {
            0nat
        }
    }
}

/// The column has a length limit although it is no character string.
pub open spec fn length_misplaced(c: ColumnModel) -> bool {
    c.max_length is Some && c.sql_type != SqlType::Text
}

/// Some column has a length limit although it is no character string.
pub open spec fn has_misplaced_length(cols: Seq<ColumnModel>) -> bool {
    exists|i: int| 0 <= i < cols.len() && length_misplaced(#[trigger] cols[i])
}

/// The first rule that the columns break, in the order: names, primary key,
/// length limits; `None` where they break none.
pub open spec fn schema_fault(cols: Seq<ColumnModel>) -> Option<SchemaError> {
    if has_duplicate_name(cols) {
        Some(SchemaError::DuplicateColumn)
    } else if primary_key_count(cols) == 0 {
        Some(SchemaError::MissingPrimaryKey)
    } else if primary_key_count(cols) > 1 {
        Some(SchemaError::MultiplePrimaryKeys)
    } else if has_misplaced_length(cols) {
        Some(SchemaError::LengthOnNonText)
    } else {
        None
    }
}

/// The columns can form a table: their names differ, exactly one is the
/// primary key, and only character strings have a length limit.
pub open spec fn valid_columns(cols: Seq<ColumnModel>) -> bool {
    schema_fault(cols) is None
}

/// The place of the last column marked as the primary key; -1 where there is
/// none. In a valid table it is the place of the one primary key.
pub open spec fn primary_key_index(cols: Seq<ColumnModel>) -> int
    decreases cols.len(),
{
    if cols.len() == 0 {
        -1
    } else if cols.last().is_primary_key {
        cols.len() - 1
    } else {
        primary_key_index(cols.drop_last())
    }
}

/// The primary key of a valid table.
pub open spec fn primary_key(cols: Seq<ColumnModel>) -> ColumnModel {
    cols[primary_key_index(cols)]
}

/// The columns' names, in order.
pub open spec fn column_names(cols: Seq<ColumnModel>) -> Seq<Seq<char>> {
    Seq::new(cols.len(), |i: int| cols[i].name)
}

/// No column is counted where none is marked.
pub proof fn lemma_primary_key_count_zero(cols: Seq<ColumnModel>)
    ensures
        primary_key_count(cols) <= cols.len(),
        primary_key_count(cols) == 0 <==> forall|i: int|
            0 <= i < cols.len() ==> !(#[trigger] cols[i]).is_primary_key,
    decreases cols.len(),
{
    if cols.len() > 0 {
        let front = cols.drop_last();
        lemma_primary_key_count_zero(front);
        if primary_key_count(cols) == 0 {
            assert forall|i: int| 0 <= i < cols.len() implies !(#[trigger] cols[i]).is_primary_key by {
                if i < front.len() {
                    assert(front[i] == cols[i]);
                }
            }
        } else if !cols.last().is_primary_key {
            let k = choose|k: int| 0 <= k < front.len() && (#[trigger] front[k]).is_primary_key;
            assert(cols[k].is_primary_key);
        } else {
            assert(cols[cols.len() - 1].is_primary_key);
        }
    }
}

/// Where at least one column is marked, `primary_key_index` points at a marked
/// column; where exactly one is, it is the only such place.
pub proof fn lemma_primary_key_index(cols: Seq<ColumnModel>)
    ensures
        primary_key_count(cols) >= 1 ==> 0 <= primary_key_index(cols) < cols.len()
            && cols[primary_key_index(cols)].is_primary_key,
        primary_key_count(cols) == 0 ==> primary_key_index(cols) == -1,
        primary_key_count(cols) == 1 ==> forall|i: int|
            0 <= i < cols.len() && (#[trigger] cols[i]).is_primary_key ==> i == primary_key_index(
                cols,
            ),
    decreases cols.len(),
{
    if cols.len() > 0 {
        let front = cols.drop_last();
        lemma_primary_key_index(front);
        lemma_primary_key_count_zero(front);
        if primary_key_count(cols) == 1 {
            assert forall|i: int| 0 <= i < cols.len() && (#[trigger] cols[i]).is_primary_key implies i
                == primary_key_index(cols) by {
                if i < front.len() {
                    assert(front[i] == cols[i]);
                }
            }
        }
    }
}

/// Where one column is marked and no other, the count is one and
/// `primary_key_index` is the place of that column.
pub proof fn lemma_single_primary_key(cols: Seq<ColumnModel>, k: int)
    requires
        0 <= k < cols.len(),
        forall|i: int| 0 <= i < cols.len() ==> ((#[trigger] cols[i]).is_primary_key <==> i == k),
    ensures
        primary_key_count(cols) == 1,
        primary_key_index(cols) == k,
    decreases cols.len(),
{
    let front = cols.drop_last();
    assert forall|i: int| 0 <= i < front.len() implies ((#[trigger] front[i]).is_primary_key <==> i
        == k) by {
        assert(front[i] == cols[i]);
    }
    if k == cols.len() - 1 {
        lemma_primary_key_count_zero(front);
    } else {
        lemma_single_primary_key(front, k);
    }
}

/// A table whose columns were checked when it was loaded. It cannot be changed
/// afterwards.
#[derive(Debug, PartialEq, Eq)]
pub struct TableSpec {
    name: String,
    columns: Vec<ColumnSpec>,
}

impl View for TableSpec {
    type V = TableModel;

    closed spec fn view(&self) -> TableModel {
        TableModel { name: self.name@, columns: column_models(self.columns@) }
    }
}

impl TableSpec {
    #[verifier::type_invariant]
    spec fn well_formed(&self) -> bool {
        valid_columns(column_models(self.columns@))
    }

    /// Makes a table of columns that are known to be valid.
    pub(crate) fn from_checked(name: String, columns: Vec<ColumnSpec>) -> (table: Self)
        requires
            valid_columns(column_models(columns@)),
        ensures
            table@ == (TableModel { name: name@, columns: column_models(columns@) }),
    {
        TableSpec { name, columns }
    }

    /// The table's name.
    pub fn name(&self) -> (name: &String)
        ensures
            name@ == self@.name,
    {
        &self.name
    }

    /// The columns in canonical order. They are valid in every table.
    pub fn columns(&self) -> (cols: &Vec<ColumnSpec>)
        ensures
            column_models(cols@) == self@.columns,
            valid_columns(self@.columns),
    {
        proof {
            use_type_invariant(self);
        }
        &self.columns
    }

    /// The place of the primary key among the columns.
    pub fn primary_key_position(&self) -> (at: usize)
        ensures
            at == primary_key_index(self@.columns),
            at < self@.columns.len(),
            valid_columns(self@.columns),
    {
        proof {
            use_type_invariant(self);
        }
        let ghost models = column_models(self.columns@);
        proof {
            lemma_primary_key_index(models);
        }
        let mut i: usize = 0;
        while i < self.columns.len()
            invariant
                i <= self.columns.len(),
                models == column_models(self.columns@),
                models == self@.columns,
                valid_columns(models),
                i <= primary_key_index(models) < models.len(),
                models[primary_key_index(models)].is_primary_key,
                primary_key_count(models) == 1,
                forall|k: int|
                    0 <= k < models.len() && (#[trigger] models[k]).is_primary_key ==> k
                        == primary_key_index(models),
            decreases self.columns.len() - i,
        {
            if self.columns[i].is_primary_key {
                assert(models[i as int].is_primary_key);
                return i;
            }
            i = i + 1;
        }
        i
    }

    /// The column that is the primary key.
    pub fn primary_key_column(&self) -> (column: &ColumnSpec)
        ensures
            column@ == primary_key(self@.columns),
            column@.is_primary_key,
            valid_columns(self@.columns),
    {
        let at = self.primary_key_position();
        proof {
            lemma_primary_key_index(self@.columns);
        }
        &self.columns[at]
    }
}

/// Whether two of the columns share a name.
fn find_duplicate_name(columns: &Vec<ColumnSpec>) -> (found: bool)
    ensures
        found == has_duplicate_name(column_models(columns@)),
{
    let ghost models = column_models(columns@);
    let n: usize = columns.len();
    let mut i: usize = 0;
    while i < n
        invariant
            i <= n,
            n == columns.len(),
            models == column_models(columns@),
            forall|a: int, b: int| 0 <= a < b < n && a < i ==> models[a].name != models[b].name,
        decreases n - i,
    {
        let mut j: usize = i + 1;
        while j < n
            invariant
                i < j <= n,
                n == columns.len(),
                models == column_models(columns@),
                forall|b: int| i < b < j ==> models[i as int].name != models[b].name,
            decreases n - j,
        {
            if columns[i].name == columns[j].name {
                assert(models[i as int].name == models[j as int].name);
                return true;
            }
            j = j + 1;
        }
        i = i + 1;
    }
    false
}

/// How many of the columns are marked as the primary key.
fn count_primary_keys(columns: &Vec<ColumnSpec>) -> (count: usize)
    ensures
        count == primary_key_count(column_models(columns@)),
{
    let ghost models = column_models(columns@);
    let mut count: usize = 0;
    let mut i: usize = 0;
    while i < columns.len()
        invariant
            i <= columns.len(),
            models == column_models(columns@),
            count <= i,
            count == primary_key_count(models.take(i as int)),
        decreases columns.len() - i,
    {
        assert(models.take(i as int + 1).drop_last() == models.take(i as int));
        if columns[i].is_primary_key {
            count = count + 1;
        }
        i = i + 1;
    }
    assert(models.take(columns.len() as int) == models);
    count
}

/// Whether a column that is no character string has a length limit.
fn find_misplaced_length(columns: &Vec<ColumnSpec>) -> (found: bool)
    ensures
        found == has_misplaced_length(column_models(columns@)),
{
    let ghost models = column_models(columns@);
    let mut i: usize = 0;
    while i < columns.len()
        invariant
            i <= columns.len(),
            models == column_models(columns@),
            forall|k: int| 0 <= k < i ==> !length_misplaced(#[trigger] models[k]),
        decreases columns.len() - i,
    {
        let is_text = match columns[i].sql_type {
            SqlType::Text => true,
            _ => false,
        };
        if columns[i].max_length.is_some() && !is_text {
            assert(length_misplaced(models[i as int]));
            return true;
        }
        i = i + 1;
    }
    false
}

/// Checks a list of columns and makes a table of it.
///
/// The columns are refused where two share a name, where none or more than one
/// is the primary key, or where a column that is no character string has a
/// length limit; nothing else is looked at. The first broken rule, in that
/// order, is the error.
pub fn load_table(name: String, columns: Vec<ColumnSpec>) -> (loaded: Result<TableSpec, SchemaError>)
    ensures
        match loaded {
            Ok(table) => schema_fault(column_models(columns@)) is None && table@ == (TableModel {
                name: name@,
                columns: column_models(columns@),
            }),
            Err(e) => schema_fault(column_models(columns@)) == Some(e),
        },
{
    if find_duplicate_name(&columns) {
        return Err(SchemaError::DuplicateColumn);
    }
    let keys: usize = count_primary_keys(&columns);
    if keys == 0 {
        return Err(SchemaError::MissingPrimaryKey);
    }
    if keys > 1 {
        return Err(SchemaError::MultiplePrimaryKeys);
    }
    if find_misplaced_length(&columns) {
        return Err(SchemaError::LengthOnNonText);
    }
    Ok(TableSpec::from_checked(name, columns))
}

} // verus!
