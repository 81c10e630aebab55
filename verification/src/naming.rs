//! Names in emitted text: the wire name of a column (camelCase) and the name
//! of a table's types (PascalCase). Both drop the underscores of a name and
//! capitalise what follows each; they differ in the first letter.

use vstd::prelude::*;
use vstd::string::*;
use crate::schema::{column_models, has_duplicate_name, ColumnModel, ColumnSpec};
use crate::text::{is_digit, is_lower, is_upper, lower_of, to_lower, to_upper, upper_of};

verus! {

/// What happens to the next character that is no underscore.
#[derive(Clone, Copy, Debug, PartialEq, Eq, Structural)]
pub enum LetterCase {
    /// It becomes a small letter: the start of a wire name.
    Lower,
    /// It becomes a capital: the start of a type name, or after an underscore.
    Upper,
    /// It stays as it is.
    Keep,
}

/// The character as `case` shows it.
pub open spec fn apply_case(case: LetterCase, c: char) -> char {
    match case {
        LetterCase::Lower => lower_of(c),
        LetterCase::Upper => upper_of(c),
        LetterCase::Keep => c,
    }
}

/// An underscore before the first letter changes nothing; a later one
/// capitalises the letter after it.
pub open spec fn after_underscore(case: LetterCase) -> LetterCase {
    match case {
        LetterCase::Lower => LetterCase::Lower,
        _ => LetterCase::Upper,
    }
}

/// `s` without its underscores, the cases of its letters changed as `case` and
/// the underscores say.
pub open spec fn convert_from(s: Seq<char>, case: LetterCase) -> Seq<char>
    decreases s.len(),
{
    if s.len() == 0 {
        Seq::empty()
    } else if s[0] == '_' {
        convert_from(s.drop_first(), after_underscore(case))
    } else {
        seq![apply_case(case, s[0])] + convert_from(s.drop_first(), LetterCase::Keep)
    }
}

/// The name under which a column travels: `ap_materno` becomes `apMaterno`.
pub open spec fn wire_name(column: Seq<char>) -> Seq<char> {
    convert_from(column, LetterCase::Lower)
}

/// The name of the types made for a table: `usuarios` becomes `Usuarios`.
pub open spec fn struct_name(table: Seq<char>) -> Seq<char> {
    convert_from(table, LetterCase::Upper)
}

fn convert_case(name: &str, first: LetterCase) -> (out: String)
    ensures
        out@ == convert_from(name@, first),
{
    let mut out = String::new();
    let mut case = first;
    proof {
        assert(name@.skip(0) == name@);
    }
    for c in it: name.chars()
        invariant
            it.seq() == name@,
            convert_from(name@, first) == out@ + convert_from(
                name@.skip(it.index() as int),
                case,
            ),
    {
        proof {
            let rest = name@.skip(it.index() as int);
            assert(rest.drop_first() == name@.skip(it.index() as int + 1));
        }
        if c == '_' {
            case =
            match case {
                LetterCase::Lower => LetterCase::Lower,
                _ => LetterCase::Upper,
            };
        } else {
            let shown = match case {
                LetterCase::Lower => to_lower(c),
                LetterCase::Upper => to_upper(c),
                LetterCase::Keep => c,
            };
            out.push(shown);
            case = LetterCase::Keep;
        }
    }
    out
}

/// The wire name of a column.
pub fn to_wire_name(column: &str) -> (out: String)
    ensures
        out@ == wire_name(column@),
{
    convert_case(column, LetterCase::Lower)
}

/// The name of the types made for a table.
pub fn to_struct_name(table: &str) -> (out: String)
    ensures
        out@ == struct_name(table@),
{
    convert_case(table, LetterCase::Upper)
}

/// A name in snake_case: small letters, digits and underscores, no underscore
/// at the start, and a small letter after every underscore.
pub open spec fn is_snake_case(s: Seq<char>) -> bool {
    &&& snake_tail(s)
    &&& s.len() > 0 ==> s[0] != '_'
}

/// What may follow inside a snake_case name.
pub open spec fn snake_tail(s: Seq<char>) -> bool {
    &&& forall|i: int|
        0 <= i < s.len() ==> is_lower(#[trigger] s[i]) || is_digit(s[i]) || s[i] == '_'
    &&& forall|i: int|
        0 <= i < s.len() && #[trigger] s[i] == '_' ==> i + 1 < s.len() && is_lower(s[i + 1])
}

/// The snake_case name that a wire name came from: each capital stands for an
/// underscore and its small letter.
pub open spec fn snake_of(wire: Seq<char>) -> Seq<char>
    decreases wire.len(),
{
    if wire.len() == 0 {
        Seq::empty()
    } else if is_upper(wire[0]) {
        seq!['_', lower_of(wire[0])] + snake_of(wire.drop_first())
    } else {
        seq![wire[0]] + snake_of(wire.drop_first())
    }
}

proof fn lemma_snake_tail_shorter(s: Seq<char>, k: int)
    requires
        snake_tail(s),
        0 <= k <= s.len(),
    ensures
        snake_tail(s.skip(k)),
{
    let t = s.skip(k);
    assert forall|i: int| 0 <= i < t.len() && #[trigger] t[i] == '_' implies i + 1 < t.len()
        && is_lower(t[i + 1]) by {
        assert(t[i] == s[i + k]);
    }
}

proof fn lemma_snake_of_inner(s: Seq<char>)
    requires
        snake_tail(s),
    ensures
        snake_of(convert_from(s, LetterCase::Keep)) == s,
    decreases s.len(),
{
    if s.len() == 0 {
    } else if s[0] == '_' {
        let letter = s[1];
        let rest = s.skip(2);
        assert(s.drop_first().drop_first() == rest);
        lemma_snake_tail_shorter(s, 2);
        lemma_snake_of_inner(rest);
        let tail = convert_from(rest, LetterCase::Keep);
        let shown = seq![upper_of(letter)] + tail;
        assert(convert_from(s, LetterCase::Keep) == convert_from(s.drop_first(), LetterCase::Upper));
        assert(shown.drop_first() == tail);
    } else {
        let rest = s.skip(1);
        lemma_snake_tail_shorter(s, 1);
        lemma_snake_of_inner(rest);
        let tail = convert_from(rest, LetterCase::Keep);
        let shown = seq![s[0]] + tail;
        assert(shown.drop_first() == tail);
    }
}

/// From the wire name of a snake_case name the name itself can be had back.
pub proof fn lemma_wire_name_round_trip(s: Seq<char>)
    requires
        is_snake_case(s),
    ensures
        snake_of(wire_name(s)) == s,
{
    if s.len() > 0 {
        let rest = s.skip(1);
        lemma_snake_tail_shorter(s, 1);
        lemma_snake_of_inner(rest);
        let tail = convert_from(rest, LetterCase::Keep);
        let shown = seq![s[0]] + tail;
        assert(shown.drop_first() == tail);
    }
}

/// Two different snake_case names never share a wire name.
pub proof fn lemma_wire_name_injective(a: Seq<char>, b: Seq<char>)
    requires
        is_snake_case(a),
        is_snake_case(b),
        a != b,
    ensures
        wire_name(a) != wire_name(b),
{
    lemma_wire_name_round_trip(a);
    lemma_wire_name_round_trip(b);
}

/// A name over the alphabet of identifiers: letters, digits and underscores.
pub open spec fn is_identifier(s: Seq<char>) -> bool {
    forall|i: int|
        0 <= i < s.len() ==> is_lower(#[trigger] s[i]) || is_upper(s[i]) || is_digit(s[i]) || s[i]
            == '_'
}

/// A name of letters and digits alone.
pub open spec fn is_alphanumeric(s: Seq<char>) -> bool {
    forall|i: int| 0 <= i < s.len() ==> is_lower(#[trigger] s[i]) || is_upper(s[i]) || is_digit(s[i])
}

proof fn lemma_identifier_shorter(s: Seq<char>)
    requires
        is_identifier(s),
        s.len() > 0,
    ensures
        is_identifier(s.drop_first()),
{
}

proof fn lemma_alphanumeric_shorter(s: Seq<char>)
    requires
        is_alphanumeric(s),
        s.len() > 0,
    ensures
        is_alphanumeric(s.drop_first()),
{
}

/// A converted identifier holds letters and digits alone; a wire name does
/// not start with a capital.
proof fn lemma_converted_is_alphanumeric(s: Seq<char>, case: LetterCase)
    requires
        is_identifier(s),
    ensures
        is_alphanumeric(convert_from(s, case)),
        case == LetterCase::Lower && convert_from(s, case).len() > 0 ==> !is_upper(
            convert_from(s, case)[0],
        ),
    decreases s.len(),
{
    if s.len() > 0 {
        lemma_identifier_shorter(s);
        if s[0] == '_' {
            lemma_converted_is_alphanumeric(s.drop_first(), after_underscore(case));
        } else {
            lemma_converted_is_alphanumeric(s.drop_first(), LetterCase::Keep);
            let tail = convert_from(s.drop_first(), LetterCase::Keep);
            let shown = seq![apply_case(case, s[0])] + tail;
            assert forall|i: int| 0 < i < shown.len() implies #[trigger] shown[i] == tail[i - 1] by {}
        }
    }
}

/// The name that `snake_of` makes of letters and digits is snake_case inside,
/// and snake_case as a whole where no capital stands first.
proof fn lemma_snake_of_is_snake_case(wire: Seq<char>)
    requires
        is_alphanumeric(wire),
    ensures
        snake_tail(snake_of(wire)),
        wire.len() > 0 && !is_upper(wire[0]) ==> snake_of(wire)[0] != '_',
        wire.len() > 0 ==> snake_of(wire).len() > 0,
    decreases wire.len(),
{
    if wire.len() > 0 {
        lemma_alphanumeric_shorter(wire);
        lemma_snake_of_is_snake_case(wire.drop_first());
        let tail = snake_of(wire.drop_first());
        let head = if is_upper(wire[0]) {
            seq!['_', lower_of(wire[0])]
        } else {
            seq![wire[0]]
        };
        let s = snake_of(wire);
        assert(s == head + tail);
        assert forall|i: int| head.len() <= i < s.len() implies #[trigger] s[i] == tail[i
            - head.len()] by {}
        assert forall|i: int| 0 <= i < s.len() && #[trigger] s[i] == '_' implies i + 1 < s.len()
            && is_lower(s[i + 1]) by {
            if i >= head.len() {
                assert(s[i + 1] == tail[i + 1 - head.len()]);
            }
        }
    }
}

/// Converting what `snake_of` made gives the wire name back.
proof fn lemma_convert_snake_of(wire: Seq<char>)
    requires
        is_alphanumeric(wire),
    ensures
        convert_from(snake_of(wire), LetterCase::Keep) == wire,
        wire.len() > 0 && !is_upper(wire[0]) ==> convert_from(snake_of(wire), LetterCase::Lower)
            == wire,
        wire.len() == 0 ==> convert_from(snake_of(wire), LetterCase::Lower) == wire,
    decreases wire.len(),
{
    if wire.len() > 0 {
        lemma_alphanumeric_shorter(wire);
        lemma_convert_snake_of(wire.drop_first());
        let rest = wire.drop_first();
        let tail = snake_of(rest);
        let s = snake_of(wire);
        if is_upper(wire[0]) {
            let letter = lower_of(wire[0]);
            assert(s.drop_first().drop_first() == tail);
            assert(convert_from(s, LetterCase::Keep) == convert_from(
                s.drop_first(),
                LetterCase::Upper,
            ));
            assert(convert_from(s.drop_first(), LetterCase::Upper) == seq![upper_of(letter)]
                + convert_from(tail, LetterCase::Keep));
        } else {
            assert(s.drop_first() == tail);
        }
    }
}

/// The snake_case names are all the names that can be told apart by their
/// wire names: every other identifier shares its wire name with a snake_case
/// name, the one that `snake_of` makes of it.
pub proof fn lemma_other_names_collide(name: Seq<char>)
    requires
        is_identifier(name),
        !is_snake_case(name),
    ensures
        is_snake_case(snake_of(wire_name(name))),
        snake_of(wire_name(name)) != name,
        wire_name(snake_of(wire_name(name))) == wire_name(name),
{
    let wire = wire_name(name);
    lemma_converted_is_alphanumeric(name, LetterCase::Lower);
    lemma_snake_of_is_snake_case(wire);
    lemma_convert_snake_of(wire);
}

/// Two columns at different places share a wire name.
pub open spec fn has_wire_collision(cols: Seq<ColumnModel>) -> bool {
    exists|i: int, j: int|
        0 <= i < j < cols.len() && wire_name(cols[i].name) == wire_name(cols[j].name)
}

/// Columns with different snake_case names have different wire names.
pub proof fn lemma_snake_case_columns_do_not_collide(cols: Seq<ColumnModel>)
    requires
        !has_duplicate_name(cols),
        forall|i: int| 0 <= i < cols.len() ==> is_snake_case(#[trigger] cols[i].name),
    ensures
        !has_wire_collision(cols),
{
    assert forall|i: int, j: int| 0 <= i < j < cols.len() implies wire_name(cols[i].name)
        != wire_name(cols[j].name) by {
        lemma_wire_name_injective(cols[i].name, cols[j].name);
    }
}

/// The wire names of the columns, in order.
pub fn wire_names(columns: &Vec<ColumnSpec>) -> (names: Vec<String>)
    ensures
        names@.len() == columns@.len(),
        forall|i: int| 0 <= i < names@.len() ==> (#[trigger] names@[i])@ == wire_name(columns@[i].name@),
{
    let mut names: Vec<String> = Vec::new();
    let mut i: usize = 0;
    while i < columns.len()
        invariant
            i <= columns.len(),
            names@.len() == i,
            forall|k: int| 0 <= k < i ==> (#[trigger] names@[k])@ == wire_name(columns@[k].name@),
        decreases columns.len() - i,
    {
        names.push(to_wire_name(columns[i].name.as_str()));
        i = i + 1;
    }
    names
}

/// Two columns would travel under one wire name. `first` and `second` are
/// their places among the columns.
#[derive(Clone, Copy, Debug, PartialEq, Eq, Structural)]
pub struct NamingCollisionError {
    pub first: usize,
    pub second: usize,
}

/// The columns at `i` and `j` share a wire name, and no pair before them does:
/// none with a smaller first place, and none with the same first place and a
/// smaller second.
pub open spec fn is_first_collision(cols: Seq<ColumnModel>, i: int, j: int) -> bool {
    &&& 0 <= i < j < cols.len()
    &&& wire_name(cols[i].name) == wire_name(cols[j].name)
    &&& forall|a: int, b: int|
        0 <= a < b < cols.len() && (a < i || (a == i && b < j)) ==> wire_name(cols[a].name)
            != wire_name(cols[b].name)
}

/// Looks for two columns that would travel under one wire name, and reports
/// the first such pair.
pub fn find_wire_collision(columns: &Vec<ColumnSpec>) -> (found: Option<NamingCollisionError>)
    ensures
        match found {
            Some(e) => is_first_collision(column_models(columns@), e.first as int, e.second as int),
            None => !has_wire_collision(column_models(columns@)),
        },
{
    let ghost models = column_models(columns@);
    let names = wire_names(columns);
    let n: usize = names.len();
    let mut i: usize = 0;
    while i < n
        invariant
            i <= n,
            n == names@.len(),
            n == columns@.len(),
            models == column_models(columns@),
            forall|k: int| 0 <= k < n ==> (#[trigger] names@[k])@ == wire_name(models[k].name),
            forall|a: int, b: int|
                0 <= a < b < n && a < i ==> wire_name(models[a].name) != wire_name(models[b].name),
        decreases n - i,
    {
        let mut j: usize = i + 1;
        while j < n
            invariant
                i < j <= n,
                n == names@.len(),
                n == columns@.len(),
                models == column_models(columns@),
                forall|k: int| 0 <= k < n ==> (#[trigger] names@[k])@ == wire_name(models[k].name),
                forall|a: int, b: int|
                    0 <= a < b < n && a < i ==> wire_name(models[a].name) != wire_name(
                        models[b].name,
                    ),
                forall|b: int|
                    i < b < j ==> wire_name(models[i as int].name) != wire_name(models[b].name),
            decreases n - j,
        {
            if names[i] == names[j] {
                return Some(NamingCollisionError { first: i, second: j });
            }
            j = j + 1;
        }
        i = i + 1;
    }
    None
}

/// At most one pair of columns is the first that collides.
pub proof fn lemma_first_collision_is_unique(cols: Seq<ColumnModel>, i: int, j: int, k: int, l: int)
    requires
        is_first_collision(cols, i, j),
        is_first_collision(cols, k, l),
    ensures
        i == k,
        j == l,
{
}

} // verus!
