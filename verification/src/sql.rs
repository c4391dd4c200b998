//! SQL statements built from table and column names.
use vstd::prelude::*;
use crate::text::{decimal, join, str_views, push_char, pop_char, push_decimal, join_strs};

verus! {

/// The positional parameter `$k`.
pub open spec fn placeholder(k: nat) -> Seq<char> {
    "$"@ + decimal(k)
}

/// The parameters `$1` .. `$n`, in order.
pub open spec fn placeholders(n: nat) -> Seq<Seq<char>> {
    Seq::new(n, |i: int| placeholder((i + 1) as nat))
}

/// `INSERT INTO <table> (<c1>, .., <cn>) VALUES ($1, .., $n)`.
pub open spec fn insert_text(table: Seq<char>, columns: Seq<Seq<char>>) -> Seq<char> {
    "INSERT INTO "@ + table + " ("@ + join(columns, ", "@) + ") VALUES ("@ + join(
        placeholders(columns.len()),
        ", "@,
    ) + ")"@
}

/// `SELECT <c1>, .., <cn> FROM <table>`.
pub open spec fn select_text(table: Seq<char>, columns: Seq<Seq<char>>) -> Seq<char> {
    "SELECT "@ + join(columns, ", "@) + " FROM "@ + table
}

/// One condition of a WHERE clause as it is written: `<column> = '<value>',`.
pub open spec fn condition_text(column: Seq<char>, value: Seq<char>) -> Seq<char> {
    column + " = "@ + "'"@ + value + "'"@ + seq![',']
}

/// The conditions written one after the other.
pub open spec fn conditions_text(conditions: Seq<(Seq<char>, Seq<char>)>) -> Seq<char>
    decreases conditions.len(),
{
    if conditions.len() == 0 {
        Seq::empty()
    } else {
        conditions_text(conditions.drop_last()) + condition_text(
            conditions.last().0,
            conditions.last().1,
        )
    }
}

/// The character views of `(column, value)` pairs.
pub open spec fn pair_views(conditions: Seq<(&str, &str)>) -> Seq<(Seq<char>, Seq<char>)> {
    conditions.map_values(|p: (&str, &str)| (p.0@, p.1@))
}

/// A SELECT with a WHERE clause: the select, ` WHERE `, every condition
/// followed by a comma, and then the last character taken off again.
pub open spec fn select_where_text(
    table: Seq<char>,
    columns: Seq<Seq<char>>,
    conditions: Seq<(Seq<char>, Seq<char>)>,
) -> Seq<char> {
    (select_text(table, columns) + " WHERE "@ + conditions_text(conditions)).drop_last()
}

/// Appends `$1, .., $n`.
fn push_placeholders(text: &mut String, n: usize)
    ensures
        final(text)@ == old(text)@ + join(placeholders(n as nat), ", "@),
{
    let ghost start = text@;
    let ghost all = placeholders(n as nat);
    let mut i: usize = 0;
    while i < n
        invariant
            i <= n,
            all == placeholders(n as nat),
            text@ == start + join(all.take(i as int), ", "@),
        decreases n - i,
    {
        let ghost before = text@;
        if i > 0 {
            text.append(", ");
        }
        text.append("$");
        push_decimal(text, (i + 1) as u64);
        proof {
            let next = all.take(i + 1);
            assert(next.drop_last() =~= all.take(i as int));
            assert(next.last() == placeholder((i + 1) as nat));
            if i == 0 {
                assert(next.len() == 1);
                assert(text@ =~= start + join(next, ", "@));
            } else {
                assert(text@ =~= start + join(next, ", "@));
            }
        }
        i = i + 1;
    }
    assert(all.take(n as int) =~= all);
}

/// The INSERT statement that `pg_insert!` sends: every column once, in the
/// given order, bound to the positional parameters `$1` .. `$n` in that order.
pub fn insert_sql(table: &str, columns: &[&str]) -> (sql: String)
    ensures
        sql@ == insert_text(table@, str_views(columns@)),
{
    let mut sql = String::new();
    sql.append("INSERT INTO ");
    sql.append(table);
    sql.append(" (");
    let names = join_strs(columns, ", ");
    sql.append(names.as_str());
    sql.append(") VALUES (");
    push_placeholders(&mut sql, columns.len());
    sql.append(")");
    assert(sql@ =~= insert_text(table@, str_views(columns@)));
    sql
}

/// The SELECT statement that `pg_select!` sends without a WHERE clause.
pub fn select_sql(table: &str, columns: &[&str]) -> (sql: String)
    ensures
        sql@ == select_text(table@, str_views(columns@)),
{
    let mut sql = String::new();
    sql.append("SELECT ");
    let names = join_strs(columns, ", ");
    sql.append(names.as_str());
    sql.append(" FROM ");
    sql.append(table);
    assert(sql@ =~= select_text(table@, str_views(columns@)));
    sql
}

/// The SELECT statement that `pg_select!` sends with a WHERE clause:
/// each condition `<column> = '<value>'`, the conditions separated by commas.
pub fn select_where_sql(table: &str, columns: &[&str], conditions: &[(&str, &str)]) -> (sql: String)
    ensures
        sql@ == select_where_text(table@, str_views(columns@), pair_views(conditions@)),
{
    let mut sql = select_sql(table, columns);
    sql.append(" WHERE ");
    let ghost start = sql@;
    let ghost pairs = pair_views(conditions@);
    let mut i: usize = 0;
    while i < conditions.len()
        invariant
            i <= conditions.len(),
            pairs == pair_views(conditions@),
            sql@ == start + conditions_text(pairs.take(i as int)),
        decreases conditions.len() - i,
    {
        let (column, value) = conditions[i];
        sql.append(column);
        sql.append(" = ");
        sql.append("'");
        sql.append(value);
        sql.append("'");
        push_char(&mut sql, ',');
        proof {
            let next = pairs.take(i + 1);
            assert(next.drop_last() =~= pairs.take(i as int));
            assert(next.last() == (column@, value@));
            assert(sql@ =~= start + conditions_text(next));
        }
        i = i + 1;
    }
    assert(pairs.take(conditions.len() as int) =~= pairs);
    proof {
        reveal_strlit(" WHERE ");
    }
    assert(sql@.len() > 0);
    pop_char(&mut sql);
    sql
}

} // verus!
