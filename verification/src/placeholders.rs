//! The placeholders in the text of the statements. Every value a statement
//! carries is bound to a numbered placeholder; this module shows that the
//! texts hold exactly the placeholders `$1`, `$2`, ... that the values fill.

use vstd::prelude::*;
use crate::store::{arity_of, sql_of, Statement, StatementKind};

verus! {

/// The characters that directly follow a dollar sign in `text` from position
/// `from` on, in the order in which they occur.
pub open spec fn markers_from(text: Seq<char>, from: int) -> Seq<char>
    decreases text.len() - from,
{
    if from < 0 || from + 1 >= text.len() {
        Seq::empty()
    } else if text[from] == '$' {
        seq![text[from + 1]] + markers_from(text, from + 1)
    } else {
        markers_from(text, from + 1)
    }
}

/// The characters that directly follow a dollar sign in `text`.
pub open spec fn markers(text: Seq<char>) -> Seq<char> {
    markers_from(text, 0)
}

/// The digits from one to `n`, for `n` up to nine.
pub open spec fn numbered(n: nat) -> Seq<char>
    recommends
        n <= 9,
{
    "123456789"@.take(n as int)
}

proof fn lemma_insert_markers()
    ensures
        markers(sql_of(StatementKind::Insert)) == numbered(3),
{
    reveal_strlit("123456789");
    reveal_strlit(
        "INSERT INTO orders (id, created_at, customer_id) VALUES ($1, $2, $3) RETURNING id",
    );
    reveal_with_fuel(markers_from, 90);
    assert(markers(sql_of(StatementKind::Insert)) =~= numbered(3));
}

proof fn lemma_select_by_id_markers()
    ensures
        markers(sql_of(StatementKind::SelectById)) == numbered(1),
{
    reveal_strlit("123456789");
    reveal_strlit("SELECT * FROM orders WHERE id = $1");
    reveal_with_fuel(markers_from, 40);
    assert(markers(sql_of(StatementKind::SelectById)) =~= numbered(1));
}

proof fn lemma_count_markers()
    ensures
        markers(sql_of(StatementKind::Count)) == numbered(0),
{
    reveal_strlit("123456789");
    reveal_strlit("SELECT COUNT(*) AS total_count FROM orders");
    reveal_with_fuel(markers_from, 50);
    assert(markers(sql_of(StatementKind::Count)) =~= numbered(0));
}

proof fn lemma_select_page_markers()
    ensures
        markers(sql_of(StatementKind::SelectPage)) == numbered(2),
{
    reveal_strlit("123456789");
    reveal_strlit("SELECT * FROM orders ORDER BY id LIMIT $1 OFFSET $2");
    reveal_with_fuel(markers_from, 60);
    assert(markers(sql_of(StatementKind::SelectPage)) =~= numbered(2));
}

proof fn lemma_update_markers()
    ensures
        markers(sql_of(StatementKind::Update)) == numbered(3),
{
    reveal_strlit("123456789");
    reveal_strlit("UPDATE orders SET created_at = $1, customer_id = $2 WHERE id = $3");
    reveal_with_fuel(markers_from, 70);
    assert(markers(sql_of(StatementKind::Update)) =~= numbered(3));
}

proof fn lemma_delete_markers()
    ensures
        markers(sql_of(StatementKind::Delete)) == numbered(1),
{
    reveal_strlit("123456789");
    reveal_strlit("DELETE FROM orders WHERE id = $1");
    reveal_with_fuel(markers_from, 40);
    assert(markers(sql_of(StatementKind::Delete)) =~= numbered(1));
}

/// The text of every kind of statement holds the placeholders `$1` to `$n`
/// in ascending order and no other dollar sign, where `n` is the number of
/// values a statement of that kind binds.
pub proof fn law_placeholders_are_numbered(kind: StatementKind)
    ensures
        markers(sql_of(kind)) == numbered(arity_of(kind)),
{
    match kind {
        StatementKind::Insert => lemma_insert_markers(),
        StatementKind::SelectById => lemma_select_by_id_markers(),
        StatementKind::Count => lemma_count_markers(),
        StatementKind::SelectPage => lemma_select_page_markers(),
        StatementKind::Update => lemma_update_markers(),
        StatementKind::Delete => lemma_delete_markers(),
    }
}

/// Every statement carries exactly one value for each placeholder of its
/// text.
pub proof fn law_values_fill_placeholders(statement: Statement)
    ensures
        markers(sql_of(statement.kind_spec())).len() == statement.params_spec().len(),
{
    law_placeholders_are_numbered(statement.kind_spec());
    statement.lemma_params_fill_placeholders();
    reveal_strlit("123456789");
}

} // verus!
