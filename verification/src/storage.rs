//! The SQL side of the I/O record tables: which rows the servers select,
//! how the simulator trims tables, and how digital values are stored.

use crate::auth::DbError;
use crate::hvac::{HVACSystem, zone_input, heating_valve, cooling_valve};
use crate::session::{append_decimal, decimal};
use vstd::prelude::*;

verus! {

/// How many rows of each I/O table the simulator keeps.
pub const ROW_LIMIT: u64 = 30;

/// The tables of the I/O database.
#[derive(Debug, Clone, Copy, PartialEq, Eq, Structural)]
pub enum IoTable {
    AnalogInputsOutputs,
    DigitalInputsOutputs,
    Variables,
}

/// The SQL name of a table.
pub open spec fn table_name(t: IoTable) -> Seq<char> {
    match t {
        IoTable::AnalogInputsOutputs => "analog_inputs_outputs"@,
        IoTable::DigitalInputsOutputs => "digital_inputs_outputs"@,
        IoTable::Variables => "variables"@,
    }
}

/// The SQL name of a table.
pub fn table_name_of(t: IoTable) -> (r: &'static str)
    ensures
        r@ == table_name(t),
{
    match t {
        IoTable::AnalogInputsOutputs => "analog_inputs_outputs",
        IoTable::DigitalInputsOutputs => "digital_inputs_outputs",
        IoTable::Variables => "variables",
    }
}

/// The query that reads a table: every row, or only the most recent one.
pub open spec fn select_sql(t: IoTable, latest: bool) -> Seq<char> {
    if latest {
        "SELECT * FROM "@ + table_name(t) + " ORDER BY timestamp DESC LIMIT 1"@
    } else {
        "SELECT * FROM "@ + table_name(t)
    }
}

/// The query that reads a table: every row, or only the most recent one.
pub fn select_query(t: IoTable, latest: bool) -> (r: String)
    ensures
        r@ == select_sql(t, latest),
{
    let mut q = "SELECT * FROM ".to_string();
    q.append(table_name_of(t));
    if latest {
        q.append(" ORDER BY timestamp DESC LIMIT 1");
    }
    q
}

/// The query of an API request on a table; without a `latest` parameter
/// every row is read.
pub fn query_for(t: IoTable, latest: Option<bool>) -> (r: String)
    ensures
        r@ == select_sql(t, latest == Some(true)),
{
    let l = match latest {
        Some(b) => b,
        None => false,
    };
    select_query(t, l)
}

/// The rows an API request answers with: those read, or none when the read failed.
pub fn rows_or_empty<T>(read: Result<Vec<T>, DbError>) -> (r: Vec<T>)
    ensures
        match read {
            Ok(rows) => r@ == rows@,
            Err(_) => r@.len() == 0,
        },
{
    match read {
        Ok(rows) => rows,
        Err(_) => Vec::new(),
    }
}

/// The statement that deletes the oldest rows of a table so that at most
/// `ROW_LIMIT` remain.
pub open spec fn row_limit_sql(t: IoTable) -> Seq<char> {
    "DELETE FROM "@ + table_name(t) + " WHERE id IN (SELECT id FROM "@ + table_name(t)
        + " ORDER BY timestamp ASC LIMIT (SELECT MAX(0, COUNT(*) - "@ + decimal(ROW_LIMIT as nat)
        + ") FROM "@ + table_name(t) + "))"@
}

/// The statement that deletes the oldest rows of a table so that at most
/// `ROW_LIMIT` remain.
pub fn row_limit_statement(t: IoTable) -> (r: String)
    ensures
        r@ == row_limit_sql(t),
{
    let name = table_name_of(t);
    let mut q = "DELETE FROM ".to_string();
    q.append(name);
    q.append(" WHERE id IN (SELECT id FROM ");
    q.append(name);
    q.append(" ORDER BY timestamp ASC LIMIT (SELECT MAX(0, COUNT(*) - ");
    append_decimal(&mut q, ROW_LIMIT);
    q.append(") FROM ");
    q.append(name);
    q.append("))");
    q
}

/// Digital column `i` of a record: inputs 0..7, then outputs 0..7.
pub open spec fn digital_column(s: HVACSystem, i: int) -> bool {
    if i == 0 { s.digital_input_0 }
    else if i == 1 { s.digital_input_1 }
    else if i == 2 { s.digital_input_2 }
    else if i == 3 { s.digital_input_3 }
    else if i == 4 { s.digital_input_4 }
    else if i == 5 { s.digital_input_5 }
    else if i == 6 { s.digital_input_6 }
    else if i == 7 { s.digital_input_7 }
    else if i == 8 { s.digital_output_0 }
    else if i == 9 { s.digital_output_1 }
    else if i == 10 { s.digital_output_2 }
    else if i == 11 { s.digital_output_3 }
    else if i == 12 { s.digital_output_4 }
    else if i == 13 { s.digital_output_5 }
    else if i == 14 { s.digital_output_6 }
    else { s.digital_output_7 }
}

fn column_bit(s: &HVACSystem, i: usize) -> (r: i32)
    requires
        i < 16,
    ensures
        r == stored_bit(digital_column(*s, i as int)),
{
    let b = if i == 0 { s.digital_input_0 }
    else if i == 1 { s.digital_input_1 }
    else if i == 2 { s.digital_input_2 }
    else if i == 3 { s.digital_input_3 }
    else if i == 4 { s.digital_input_4 }
    else if i == 5 { s.digital_input_5 }
    else if i == 6 { s.digital_input_6 }
    else if i == 7 { s.digital_input_7 }
    else if i == 8 { s.digital_output_0 }
    else if i == 9 { s.digital_output_1 }
    else if i == 10 { s.digital_output_2 }
    else if i == 11 { s.digital_output_3 }
    else if i == 12 { s.digital_output_4 }
    else if i == 13 { s.digital_output_5 }
    else if i == 14 { s.digital_output_6 }
    else { s.digital_output_7 };
    if b { 1 } else { 0 }
}

/// Trimming keeps the newest rows: for every table the statement deletes,
/// oldest first, `MAX(0, COUNT(*) - 30)` rows of that same table, so a table
/// of 30 rows or fewer loses none, and only the rows beyond 30 go.
pub proof fn lemma_row_limit_clamps_for_every_table(t: IoTable)
    ensures
        row_limit_sql(t) == "DELETE FROM "@ + table_name(t) + " WHERE id IN (SELECT id FROM "@
            + table_name(t) + " ORDER BY timestamp ASC LIMIT (SELECT MAX(0, COUNT(*) - 30) FROM "@
            + table_name(t) + "))"@,
        ROW_LIMIT == 30,
{
    reveal_strlit(" ORDER BY timestamp ASC LIMIT (SELECT MAX(0, COUNT(*) - ");
    reveal_strlit(") FROM ");
    reveal_strlit(" ORDER BY timestamp ASC LIMIT (SELECT MAX(0, COUNT(*) - 30) FROM ");
    assert(decimal(30) =~= seq!['3', '0']) by {
        assert(decimal(3) == seq!['3']);
    }
    assert(" ORDER BY timestamp ASC LIMIT (SELECT MAX(0, COUNT(*) - "@ + decimal(30) + ") FROM "@
        =~= " ORDER BY timestamp ASC LIMIT (SELECT MAX(0, COUNT(*) - 30) FROM "@);
    let a = "DELETE FROM "@ + table_name(t) + " WHERE id IN (SELECT id FROM "@ + table_name(t);
    let n = table_name(t);
    assert(row_limit_sql(t) =~= a + (" ORDER BY timestamp ASC LIMIT (SELECT MAX(0, COUNT(*) - "@
        + decimal(30) + ") FROM "@) + n + "))"@);
}

/// A digital value as the tables store it: 1 for set, 0 for clear.
pub open spec fn stored_bit(b: bool) -> i32 {
    if b {
        1
    } else {
        0
    }
}

/// The values bound to the sixteen digital columns of a new record.
pub fn digital_row(s: &HVACSystem) -> (r: Vec<i32>)
    ensures
        r@.len() == 16,
        forall|i: int| 0 <= i < 16 ==> #[trigger] r@[i] == stored_bit(digital_column(*s, i)),
        r@[0] == stored_bit(s.digital_input_0),
        r@[1] == stored_bit(s.digital_input_1),
        r@[2] == stored_bit(s.digital_input_2),
        r@[3] == stored_bit(s.digital_input_3),
        r@[4] == stored_bit(s.digital_input_4),
        r@[5] == stored_bit(s.digital_input_5),
        r@[6] == stored_bit(s.digital_input_6),
        r@[7] == stored_bit(s.digital_input_7),
        r@[8] == stored_bit(s.digital_output_0),
        r@[9] == stored_bit(s.digital_output_1),
        r@[10] == stored_bit(s.digital_output_2),
        r@[11] == stored_bit(s.digital_output_3),
        r@[12] == stored_bit(s.digital_output_4),
        r@[13] == stored_bit(s.digital_output_5),
        r@[14] == stored_bit(s.digital_output_6),
        r@[15] == stored_bit(s.digital_output_7),
{
    let mut v: Vec<i32> = Vec::new();
    for i in 0..16usize
        invariant
            v@.len() == i,
            forall|j: int| 0 <= j < i ==> #[trigger] v@[j] == stored_bit(digital_column(*s, j)),
    {
        v.push(column_bit(s, i));
    }
    proof {
        lemma_columns_are_named_fields(*s);
    }
    v
}

/// The digital columns of a record are, in order, the eight inputs and then
/// the eight outputs: zone k's valve status in column k, the emergency,
/// power, maintenance and reserved inputs in columns 4..7, zone k's heating
/// valve in column 8 + k and its cooling valve in column 12 + k. Stored bits
/// are 1 for set and 0 for clear.
pub proof fn lemma_columns_are_named_fields(s: HVACSystem)
    ensures
        forall|k: int| 0 <= k < 4 ==> #[trigger] digital_column(s, k) == zone_input(s, k),
        digital_column(s, 4) == s.digital_input_4,
        digital_column(s, 5) == s.digital_input_5,
        digital_column(s, 6) == s.digital_input_6,
        digital_column(s, 7) == s.digital_input_7,
        forall|k: int| 0 <= k < 4 ==> #[trigger] digital_column(s, 8 + k) == heating_valve(s, k),
        forall|k: int| 0 <= k < 4 ==> #[trigger] digital_column(s, 12 + k) == cooling_valve(s, k),
        forall|b: bool| #[trigger] stored_bit(b) == 1 <==> b,
        forall|b: bool| #[trigger] stored_bit(b) == 0 <==> !b,
{
}

/// The gains and state are recorded once: only while the variables table is empty.
pub fn should_seed_variables(row_count: i64) -> (r: bool)
    ensures
        r == (row_count == 0),
{
    row_count == 0
}

} // verus!
