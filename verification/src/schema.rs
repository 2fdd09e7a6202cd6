use vstd::prelude::*;
use vstd::string::*;

use crate::text::text_eq;

verus! {

/// The tables of the pipeline's SQLite database.
#[derive(Debug, Clone, Copy, PartialEq, Eq, Structural)]
pub enum Table {
    Blocks,
    Pies,
    Proofs,
    JobIds,
    FailedBlocks,
}

/// The name of a table.
pub open spec fn table_name(t: Table) -> Seq<char> {
    match t {
        Table::Blocks => "blocks"@,
        Table::Pies => "pies"@,
        Table::Proofs => "proofs"@,
        Table::JobIds => "job_ids"@,
        Table::FailedBlocks => "failed_blocks"@,
    }
}

/// The columns a table must have for the database to be used as it is.
pub open spec fn required_columns(t: Table) -> Seq<Seq<char>> {
    match t {
        Table::Blocks => seq!["block_id"@, "status"@],
        Table::Pies => seq!["id"@, "block_id"@, "snos_pie"@, "bridge_pie"@],
        Table::Proofs => seq!["id"@, "block_id"@, "snos_proof"@, "bridge_proof"@],
        Table::JobIds => seq![
            "id"@,
            "block_id"@,
            "snos_proof_query_id"@,
            "trace_gen_query_id"@,
            "bridge_proof_query_id"@,
        ],
        Table::FailedBlocks => seq!["id"@, "block_id"@, "failure_reason"@],
    }
}

/// The tables the database must hold, in the order they are checked.
pub open spec fn expected_tables() -> Seq<Table> {
    seq![Table::Blocks, Table::Pies, Table::Proofs, Table::JobIds, Table::FailedBlocks]
}

/// Whether one of `names` is the text `t`.
pub open spec fn contains_text(names: Seq<String>, t: Seq<char>) -> bool {
    exists|i: int| 0 <= i < names.len() && #[trigger] names[i]@ == t
}

/// Whether a table with the given column names has every required column.
pub open spec fn has_required_columns(t: Table, columns: Seq<String>) -> bool {
    forall|j: int|
        0 <= j < required_columns(t).len() ==> contains_text(columns, #[trigger] required_columns(t)[j])
}

impl Table {
    /// The name of the table.
    pub fn name(&self) -> (r: &'static str)
        ensures
            r@ == table_name(*self),
    {
        match self {
            Table::Blocks => "blocks",
            Table::Pies => "pies",
            Table::Proofs => "proofs",
            Table::JobIds => "job_ids",
            Table::FailedBlocks => "failed_blocks",
        }
    }

    /// The columns the table must have.
    pub fn required_columns(&self) -> (r: Vec<&'static str>)
        ensures
            r@.len() == required_columns(*self).len(),
            forall|i: int| 0 <= i < r@.len() ==> #[trigger] r@[i]@ == required_columns(*self)[i],
    {
        match self {
            Table::Blocks => vec!["block_id", "status"],
            Table::Pies => vec!["id", "block_id", "snos_pie", "bridge_pie"],
            Table::Proofs => vec!["id", "block_id", "snos_proof", "bridge_proof"],
            Table::JobIds => vec![
                "id",
                "block_id",
                "snos_proof_query_id",
                "trace_gen_query_id",
                "bridge_proof_query_id",
            ],
            Table::FailedBlocks => vec!["id", "block_id", "failure_reason"],
        }
    }
}

/// The tables the database must hold, in the order they are checked.
pub fn expected_table_list() -> (r: Vec<Table>)
    ensures
        r@ == expected_tables(),
{
    let r = vec![Table::Blocks, Table::Pies, Table::Proofs, Table::JobIds, Table::FailedBlocks];
    assert(r@ =~= expected_tables());
    r
}

/// Whether `names` holds the text `t`.
pub(crate) fn find_text(names: &Vec<String>, t: &str) -> (r: bool)
    ensures
        r == contains_text(names@, t@),
{
    let mut i: usize = 0;
    while i < names.len()
        invariant
            i <= names@.len(),
            forall|k: int| 0 <= k < i ==> names@[k]@ != t@,
        decreases names@.len() - i,
    {
        if text_eq(names[i].as_str(), t) {
            assert(names@[i as int]@ == t@);
            return true;
        }
        i = i + 1;
    }
    false
}

/// Checks the column names a table reports against the columns it must have; other columns are
/// allowed.
pub fn check_table_columns(table: Table, columns: &Vec<String>) -> (r: bool)
    ensures
        r == has_required_columns(table, columns@),
{
    let required = table.required_columns();
    let mut j: usize = 0;
    while j < required.len()
        invariant
            j <= required@.len(),
            required@.len() == required_columns(table).len(),
            forall|i: int| 0 <= i < required@.len() ==> #[trigger] required@[i]@ == required_columns(
                table,
            )[i],
            forall|k: int| 0 <= k < j ==> contains_text(columns@, #[trigger] required_columns(table)[k]),
        decreases required@.len() - j,
    {
        if !find_text(columns, required[j]) {
            assert(required@[j as int]@ == required_columns(table)[j as int]);
            return false;
        }
        j = j + 1;
    }
    true
}

/// Whether the database must be (re)created: a table is missing, or a table lacks a required
/// column.
pub fn schema_needs_creation(all_tables_exist: bool, columns_ok: bool) -> (r: bool)
    ensures
        r <==> !all_tables_exist || !columns_ok,
{
    !all_tables_exist || !columns_ok
}

/// `n` SQL parameter placeholders separated by commas.
pub open spec fn placeholders(n: nat) -> Seq<char>
    decreases n,
{
    if n == 0 {
        Seq::empty()
    } else if n == 1 {
        seq!['?']
    } else {
        placeholders((n - 1) as nat) + seq![',', '?']
    }
}

/// The statement that marks `count` failed blocks as handled, one parameter per block id.
pub open spec fn mark_handled_statement(count: nat) -> Seq<char> {
    "UPDATE failed_blocks SET handled = TRUE WHERE block_id IN ("@ + placeholders(count) + ")"@
}

/// Builds the statement that marks `count` failed blocks as handled; `None` when there is no
/// block to mark, in which case nothing is to be done.
pub fn mark_handled_sql(count: usize) -> (r: Option<String>)
    ensures
        count == 0 <==> r is None,
        r matches Some(s) ==> s@ == mark_handled_statement(count as nat),
{
    if count == 0 {
        return None;
    }
    let mut s = String::from_str("UPDATE failed_blocks SET handled = TRUE WHERE block_id IN (");
    let ghost prefix = "UPDATE failed_blocks SET handled = TRUE WHERE block_id IN ("@;
    proof {
        reveal_strlit("?");
        reveal_strlit(",?");
    }
    assert("?"@ =~= seq!['?']);
    assert(",?"@ =~= seq![',', '?']);
    s.append("?");
    assert(s@ =~= prefix + placeholders(1));
    let mut i: usize = 1;
    while i < count
        invariant
            1 <= i <= count,
            s@ == prefix + placeholders(i as nat),
        decreases count - i,
    {
        proof {
            reveal_strlit(",?");
            assert(",?"@ =~= seq![',', '?']);
        }
        s.append(",?");
        i = i + 1;
        assert(placeholders(i as nat) == placeholders((i - 1) as nat) + seq![',', '?']);
        assert(s@ =~= prefix + placeholders(i as nat));
    }
    s.append(")");
    Some(s)
}

} // verus!
