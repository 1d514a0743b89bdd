//! The rules of the HTTP front end: which names may enter a statement, the
//! statements it writes, and how it hands a dispatch to the dispatcher program.
use vstd::prelude::*;

verus! {

/// What `char::is_alphanumeric` says of `c`.
pub uninterp spec fn alphanumeric(c: char) -> bool;

/// Relies on `char::is_alphanumeric`: alphabetic or numeric in Unicode's sense.
#[verifier::external_body]
fn is_alphanumeric_char(c: char) -> (r: bool)
    ensures
        r == alphanumeric(c),
{
    c.is_alphanumeric()
}

/// A name that may stand in a statement unquoted: letters, digits and `_` only.
pub open spec fn is_sql_name(s: Seq<char>) -> bool {
    forall|i: int| 0 <= i < s.len() ==> alphanumeric(#[trigger] s[i]) || s[i] == '_'
}

/// Whether `name` may be used as a table or column name.
pub fn valid_sql_name(name: &str) -> (r: bool)
    ensures
        r == is_sql_name(name@),
{
    let n = name.unicode_len();
    let mut i: usize = 0;
    while i < n
        invariant
            n == name@.len(),
            i <= n,
            forall|j: int| 0 <= j < i ==> alphanumeric(#[trigger] name@[j]) || name@[j] == '_',
        decreases n - i,
    {
        let c = name.get_char(i);
        if !(is_alphanumeric_char(c) || c == '_') {
            return false;
        }
        i = i + 1;
    }
    true
}

/// `parts` written one after the other with `sep` between each two.
pub open spec fn joined(parts: Seq<Seq<char>>, sep: Seq<char>) -> Seq<char>
    decreases parts.len(),
{
    if parts.len() == 0 {
        Seq::empty()
    } else if parts.len() == 1 {
        parts[0]
    } else {
        joined(parts.drop_last(), sep) + sep + parts.last()
    }
}

pub open spec fn comma() -> Seq<char> {
    seq![',', ' ']
}

fn join_with_comma(parts: &Vec<String>) -> (r: String)
    ensures
        r@ == joined(parts@.map_values(|x: String| x@), comma()),
{
    let sep = ", ";
    proof {
        reveal_strlit(", ");
    }
    assert(sep@ =~= comma());
    let ghost all = parts@.map_values(|x: String| x@);
    let mut r = String::new();
    let mut i: usize = 0;
    while i < parts.len()
        invariant
            i <= parts@.len(),
            all == parts@.map_values(|x: String| x@),
            sep@ == comma(),
            r@ == joined(all.subrange(0, i as int), comma()),
        decreases parts@.len() - i,
    {
        let ghost next = all.subrange(0, i + 1);
        assert(next.drop_last() =~= all.subrange(0, i as int));
        if i == 0 {
            r = parts[0].clone();
            assert(next =~= seq![all[0]]);
        } else {
            r.append(sep);
            r.append(parts[i].as_str());
        }
        i = i + 1;
    }
    assert(all.subrange(0, parts@.len() as int) =~= all);
    r
}

/// `count` copies of `?` separated by `, `.
pub open spec fn placeholders(count: nat) -> Seq<Seq<char>> {
    Seq::new(count, |i: int| seq!['?'])
}

/// `"INSERT INTO <table> (<c1>, <c2>, ...) VALUES (?, ?, ...)"`.
pub open spec fn insert_statement_text(table: Seq<char>, columns: Seq<Seq<char>>) -> Seq<char> {
    "INSERT INTO "@ + table + " ("@ + joined(columns, comma()) + ") VALUES ("@ + joined(
        placeholders(columns.len()),
        comma(),
    ) + ")"@
}

/// The statement that inserts one row with the given columns, each bound to a parameter.
pub fn insert_statement(table: &str, columns: &Vec<String>) -> (r: String)
    ensures
        r@ == insert_statement_text(table@, columns@.map_values(|x: String| x@)),
{
    let mut marks: Vec<String> = Vec::new();
    let mut i: usize = 0;
    let q = "?";
    proof {
        reveal_strlit("?");
    }
    assert(q@ =~= seq!['?']);
    while i < columns.len()
        invariant
            i <= columns@.len(),
            q@ == seq!['?'],
            marks@.len() == i,
            forall|j: int| 0 <= j < i ==> #[trigger] marks@[j]@ == seq!['?'],
        decreases columns@.len() - i,
    {
        marks.push(String::from_str(q));
        i = i + 1;
    }
    assert(marks@.map_values(|x: String| x@) =~= placeholders(columns@.len() as nat));
    String::from_str("INSERT INTO ").concat(table).concat(" (").concat(join_with_comma(columns).as_str()).concat(
        ") VALUES (",
    ).concat(join_with_comma(&marks).as_str()).concat(")")
}

/// `` `<column>` = ? ``.
pub open spec fn assignment(column: Seq<char>) -> Seq<char> {
    seq!['`'] + column + "` = ?"@
}

/// ``"UPDATE `<table>` SET `<c1>` = ?, ... WHERE `<key>` = ?"``.
pub open spec fn update_statement_text(table: Seq<char>, columns: Seq<Seq<char>>, key: Seq<char>) -> Seq<char> {
    "UPDATE `"@ + table + "` SET "@ + joined(columns.map_values(|c: Seq<char>| assignment(c)), comma())
        + " WHERE "@ + assignment(key)
}

fn assignment_text(column: &str) -> (r: String)
    ensures
        r@ == assignment(column@),
{
    let tick = "`";
    proof {
        reveal_strlit("`");
    }
    assert(tick@ =~= seq!['`']);
    String::from_str(tick).concat(column).concat("` = ?")
}

/// The statement that sets the given columns, each bound to a parameter, in
/// the row whose `key` column equals a last parameter.
pub fn update_statement(table: &str, columns: &Vec<String>, key: &str) -> (r: String)
    ensures
        r@ == update_statement_text(table@, columns@.map_values(|x: String| x@), key@),
{
    let mut items: Vec<String> = Vec::new();
    let mut i: usize = 0;
    let ghost cols = columns@.map_values(|x: String| x@);
    while i < columns.len()
        invariant
            i <= columns@.len(),
            cols == columns@.map_values(|x: String| x@),
            items@.len() == i,
            forall|j: int| 0 <= j < i ==> #[trigger] items@[j]@ == assignment(cols[j]),
        decreases columns@.len() - i,
    {
        items.push(assignment_text(columns[i].as_str()));
        i = i + 1;
    }
    assert(items@.map_values(|x: String| x@) =~= cols.map_values(|c: Seq<char>| assignment(c)));
    String::from_str("UPDATE `").concat(table).concat("` SET ").concat(join_with_comma(&items).as_str()).concat(
        " WHERE ",
    ).concat(assignment_text(key).as_str())
}

/// The dispatcher program to run: the configured path, unless it is unset or empty.
pub fn dispatch_binary(configured: &Option<String>) -> (r: Option<String>)
    ensures
        match configured {
            Some(p) => if p@.len() == 0 {
                r is None
            } else {
                r is Some && r->Some_0@ == p@
            },
            None => r is None,
        },
{
    match configured {
        Some(p) => if p.as_str().unicode_len() == 0 {
            None
        } else {
            Some(p.clone())
        },
        None => None,
    }
}

/// The arguments of the dispatcher program for one request:
/// `-c <command> -i <client>`, then `--files <list>` when files are given.
pub open spec fn dispatch_args_spec(command: Seq<char>, client: Seq<char>, files: Option<Seq<char>>) -> Seq<Seq<char>> {
    let base = seq![seq!['-', 'c'], command, seq!['-', 'i'], client];
    match files {
        Some(f) => base + seq![seq!['-', '-', 'f', 'i', 'l', 'e', 's'], f],
        None => base,
    }
}

pub fn dispatch_arguments(command: &str, client: &str, files: &Option<String>) -> (r: Vec<String>)
    ensures
        r@.map_values(|x: String| x@) == dispatch_args_spec(command@, client@, crate::text::opt_text(*files)),
{
    let c = "-c";
    let i = "-i";
    let f = "--files";
    proof {
        reveal_strlit("-c");
        reveal_strlit("-i");
        reveal_strlit("--files");
    }
    assert(c@ =~= seq!['-', 'c']);
    assert(i@ =~= seq!['-', 'i']);
    assert(f@ =~= seq!['-', '-', 'f', 'i', 'l', 'e', 's']);
    let mut r: Vec<String> = Vec::new();
    r.push(String::from_str(c));
    r.push(String::from_str(command));
    r.push(String::from_str(i));
    r.push(String::from_str(client));
    match files {
        Some(list) => {
            r.push(String::from_str(f));
            r.push(list.clone());
        },
        None => {},
    }
    assert(r@.map_values(|x: String| x@) =~= dispatch_args_spec(command@, client@, crate::text::opt_text(*files)));
    r
}

/// How a column's value is read when a table is listed.
#[derive(Debug, Clone, Copy, PartialEq, Eq)]
pub enum ColumnKind {
    Text,
    Integer,
    Boolean,
}

/// `INT` and `BIGINT` columns are integers, `BOOLEAN` ones booleans; every
/// other column (`TEXT`, `VARCHAR`, `CHAR` and the rest) is read as text.
pub open spec fn column_kind_of(sql_type: Seq<char>) -> ColumnKind {
    if sql_type == "INT"@ || sql_type == "BIGINT"@ {
        ColumnKind::Integer
    } else if sql_type == "BOOLEAN"@ {
        ColumnKind::Boolean
    } else {
        ColumnKind::Text
    }
}

pub fn column_kind(sql_type: &str) -> (r: ColumnKind)
    ensures
        r == column_kind_of(sql_type@),
{
    if crate::text::same_text(sql_type, "INT") || crate::text::same_text(sql_type, "BIGINT") {
        ColumnKind::Integer
    } else if crate::text::same_text(sql_type, "BOOLEAN") {
        ColumnKind::Boolean
    } else {
        ColumnKind::Text
    }
}

} // verus!
