use crate::dates::{chrono_parse_date_time, date_time_column, opt_text, read_date_time_column, DateTimeParts};
use crate::model::{CreateLiteExt, DataConext, QueryContext, QueryValidExtContext};
use crate::sql::{
    change_messages, create_messages, lemma_records_spec_elements, records_from_rows, records_spec, views, MessagesView,
    RowRecord, SqlCommand, SqlCommandView, SqlQuery, SqlQueryView, SqlValue, SqlValueView,
    CONNECT_FAILED, CONNECT_FAILED_CAPITAL, DELETE_FAILED, INSERT_DONE, INSERT_FAILED,
    TABLE_CREATED, TABLE_CREATE_FAILED, UPDATE_FAILED,
};
use vstd::prelude::*;

verus! {

/// The status of an inventory that is still being counted.
pub const STATUS_OPEN: u8 = 1;

/// The status of an inventory that has been closed.
pub const STATUS_CLOSED: u8 = 0;

/// An inventory as stored in the `Inventory` table: its key and whether it is
/// open (`STATUS_OPEN`) or closed (`STATUS_CLOSED`).
#[derive(Clone, Copy, Debug, PartialEq, Eq, Structural)]
pub struct InventoryLite {
    pub id: u32,
    pub statusid: u8,
    pub date_created: Option<DateTimeParts>,
    pub date_updated: Option<DateTimeParts>,
}

pub const CREATE_SQL: &'static str = "CREATE TABLE IF NOT EXISTS Inventory ( id_inv INTEGER PRIMARY KEY AUTOINCREMENT, status_id INTEGER NOT NULL, date_created DATETIME DEFAULT (datetime('now')), date_updated DATETIME DEFAULT NULL);";

pub const INSERT_SQL: &'static str = "INSERT INTO Inventory (status_id) VALUES(?);";

/// Removes an inventory only when no detail line refers to it.
pub const DELETE_SQL: &'static str = "DELETE FROM Inventory AS inv WHERE inv.id_inv = ? AND NOT EXISTS(SELECT 1 FROM Inventory_detail WHERE id_inv = inv.id_inv LIMIT 1);";

pub const UPDATE_SQL: &'static str = "UPDATE Inventory SET status_id = ?, date_updated= (datetime('now')) WHERE id_inv = ?;";

pub const SELECT_ALL_SQL: &'static str = "SELECT id_inv, status_id, date_created, date_updated FROM Inventory ORDER BY id_inv DESC;";

/// Gives one row holding 1 when an open inventory exists, and no row otherwise.
pub const SELECT_OPEN_SQL: &'static str = "SELECT 1 FROM Inventory  WHERE status_id = 1 LIMIT 1;";

impl InventoryLite {
    /// A new inventory, open, not yet stored.
    pub fn new() -> (i: Self)
        ensures
            i == (InventoryLite {
                id: 0,
                statusid: STATUS_OPEN,
                date_created: None,
                date_updated: None,
            }),
    {
        InventoryLite { id: 0, statusid: STATUS_OPEN, date_created: None, date_updated: None }
    }
}

impl CreateLiteExt for InventoryLite {
    type Output = InventoryLite;
    type Key = u32;

    fn del(key: u32) -> (i: InventoryLite)
        ensures
            i == (InventoryLite { id: key, statusid: 0, date_created: None, date_updated: None }),
    {
        InventoryLite { id: key, statusid: 0, date_created: None, date_updated: None }
    }

    /// The inventory `key` with the closed status: updating with it closes
    /// the inventory.
    fn upd(key: u32) -> (i: InventoryLite)
        ensures
            i == (InventoryLite {
                id: key,
                statusid: STATUS_CLOSED,
                date_created: None,
                date_updated: None,
            }),
    {
        InventoryLite { id: key, statusid: STATUS_CLOSED, date_created: None, date_updated: None }
    }

    fn empty() -> (i: InventoryLite)
        ensures
            i == (InventoryLite { id: 0, statusid: 0, date_created: None, date_updated: None }),
    {
        InventoryLite { id: 0, statusid: 0, date_created: None, date_updated: None }
    }
}

/// The statement that creates the table, with its report texts.
pub open spec fn create_command() -> SqlCommandView {
    SqlCommandView {
        sql: CREATE_SQL@,
        params: seq![],
        messages: MessagesView {
            done: TABLE_CREATED@,
            failed: TABLE_CREATE_FAILED@,
            connect_failed: CONNECT_FAILED_CAPITAL@,
        },
    }
}

impl DataConext for InventoryLite {
    fn create(&self) -> (c: SqlCommand)
        ensures
            c@ == create_command(),
    {
        let c = SqlCommand {
            sql: CREATE_SQL,
            params: Vec::new(),
            messages: create_messages(CONNECT_FAILED_CAPITAL),
        };
        assert(c@.params =~= seq![]);
        c
    }

    fn insert(&self) -> (c: SqlCommand)
        ensures
            c@ == (SqlCommandView {
                sql: INSERT_SQL@,
                params: seq![SqlValueView::Integer(self.statusid as int)],
                messages: MessagesView {
                    done: INSERT_DONE@,
                    failed: INSERT_FAILED@,
                    connect_failed: CONNECT_FAILED@,
                },
            }),
    {
        let mut params: Vec<SqlValue> = Vec::new();
        params.push(SqlValue::Integer(self.statusid as i64));
        let c = SqlCommand {
            sql: INSERT_SQL,
            params,
            messages: change_messages(INSERT_DONE, INSERT_FAILED),
        };
        assert(c@.params =~= seq![SqlValueView::Integer(self.statusid as int)]);
        c
    }

    fn delete(&self) -> (c: SqlCommand)
        ensures
            c@ == (SqlCommandView {
                sql: DELETE_SQL@,
                params: seq![SqlValueView::Integer(self.id as int)],
                messages: MessagesView {
                    done: INSERT_DONE@,
                    failed: DELETE_FAILED@,
                    connect_failed: CONNECT_FAILED@,
                },
            }),
    {
        let mut params: Vec<SqlValue> = Vec::new();
        params.push(SqlValue::Integer(self.id as i64));
        let c = SqlCommand {
            sql: DELETE_SQL,
            params,
            messages: change_messages(INSERT_DONE, DELETE_FAILED),
        };
        assert(c@.params =~= seq![SqlValueView::Integer(self.id as int)]);
        c
    }

    fn update(&self) -> (c: SqlCommand)
        ensures
            c@ == (SqlCommandView {
                sql: UPDATE_SQL@,
                params: seq![
                    SqlValueView::Integer(self.statusid as int),
                    SqlValueView::Integer(self.id as int),
                ],
                messages: MessagesView {
                    done: INSERT_DONE@,
                    failed: UPDATE_FAILED@,
                    connect_failed: CONNECT_FAILED@,
                },
            }),
    {
        let mut params: Vec<SqlValue> = Vec::new();
        params.push(SqlValue::Integer(self.statusid as i64));
        params.push(SqlValue::Integer(self.id as i64));
        let c = SqlCommand {
            sql: UPDATE_SQL,
            params,
            messages: change_messages(INSERT_DONE, UPDATE_FAILED),
        };
        assert(c@.params =~= seq![
            SqlValueView::Integer(self.statusid as int),
            SqlValueView::Integer(self.id as int),
        ]);
        c
    }
}

/// A row of `SELECT_ALL_SQL`, the dates as the database stores them.
pub struct InventoryRow {
    pub id: u32,
    pub statusid: u8,
    pub date_created: Option<String>,
    pub date_updated: Option<String>,
}

impl View for InventoryLite {
    type V = InventoryLite;

    open spec fn view(&self) -> InventoryLite {
        *self
    }
}

impl InventoryRow {
    /// The inventory of this row once its date columns have been read.
    pub fn to_inventory(
        &self,
        date_created: Option<DateTimeParts>,
        date_updated: Option<DateTimeParts>,
    ) -> (i: InventoryLite)
        ensures
            i == (InventoryLite { id: self.id, statusid: self.statusid, date_created, date_updated }),
    {
        InventoryLite { id: self.id, statusid: self.statusid, date_created, date_updated }
    }
}

impl RowRecord for InventoryRow {
    type Record = InventoryLite;

    open spec fn spec_record(&self) -> Option<InventoryLite> {
        match (
            date_time_column(opt_text(self.date_created)),
            date_time_column(opt_text(self.date_updated)),
        ) {
            (Some(created), Some(updated)) => Some(
                InventoryLite {
                    id: self.id,
                    statusid: self.statusid,
                    date_created: created,
                    date_updated: updated,
                },
            ),
            _ => None,
        }
    }

    fn record(&self) -> (r: Option<InventoryLite>) {
        let created = read_date_time_column(&self.date_created);
        let updated = read_date_time_column(&self.date_updated);
        match (created, updated) {
            (Some(date_created), Some(date_updated)) => Some(
                self.to_inventory(date_created, date_updated),
            ),
            _ => None,
        }
    }
}

impl QueryContext for InventoryLite {
    type Row = InventoryRow;
    type Output = Option<Vec<InventoryLite>>;

    fn get_all_query(&self) -> (q: SqlQuery)
        ensures
            q@ == (SqlQueryView { sql: SELECT_ALL_SQL@, params: seq![] }),
    {
        let q = SqlQuery { sql: SELECT_ALL_SQL, params: Vec::new() };
        assert(q@.params =~= seq![]);
        q
    }

    /// All inventories, newest key first as the query orders them; nothing
    /// when a stored date does not read.
    fn get_all(&self, rows: &Vec<InventoryRow>) -> (r: Option<Vec<InventoryLite>>)
        ensures
            match r {
                Some(v) => records_spec(rows@) == Some(views(v@)),
                None => records_spec(rows@) is None,
            },
    {
        records_from_rows(rows)
    }
}

/// What asking for an open inventory gives: the single row's value when the
/// query returned exactly one row (as rusqlite's `query_one` does), and
/// nothing otherwise.
pub open spec fn single_row(rows: Seq<u8>) -> Option<u8> {
    if rows.len() == 1 {
        Some(rows[0])
    } else {
        None
    }
}

impl QueryValidExtContext for InventoryLite {
    type Row = u8;
    type Output = Option<u8>;

    fn get_filter_query(&self) -> (q: SqlQuery)
        ensures
            q@ == (SqlQueryView { sql: SELECT_OPEN_SQL@, params: seq![] }),
    {
        let q = SqlQuery { sql: SELECT_OPEN_SQL, params: Vec::new() };
        assert(q@.params =~= seq![]);
        q
    }

    /// Whether an open inventory exists: `Some(1)` when one does.
    fn get_filter(&self, rows: &Vec<u8>) -> (r: Option<u8>)
        ensures
            r == single_row(rows@),
    {
        if rows.len() == 1 {
            Some(rows[0])
        } else {
            None
        }
    }
}

/// Listing inventories keeps every row's key and status (open or closed), in
/// the rows' order; an empty date column gives no date, and a date text gives
/// the date-time chrono reads from it. The list is refused exactly when some
/// row holds a date text that chrono does not read.
pub proof fn lemma_listed_inventories_keep_columns(rows: Seq<InventoryRow>)
    ensures
        records_spec(rows) matches Some(v) ==> v.len() == rows.len() && forall|i: int|
            #![trigger v[i]]
            0 <= i < rows.len() ==> {
                &&& v[i].id == rows[i].id
                &&& v[i].statusid == rows[i].statusid
                &&& (rows[i].date_created is None ==> v[i].date_created is None)
                &&& (rows[i].date_created matches Some(t) ==> v[i].date_created
                    == chrono_parse_date_time(t@))
                &&& (rows[i].date_updated is None ==> v[i].date_updated is None)
                &&& (rows[i].date_updated matches Some(t) ==> v[i].date_updated
                    == chrono_parse_date_time(t@))
            },
        records_spec(rows) is None <==> exists|i: int|
            #![trigger rows[i]]
            0 <= i < rows.len() && {
                ||| (rows[i].date_created matches Some(t) && chrono_parse_date_time(t@) is None)
                ||| (rows[i].date_updated matches Some(t) && chrono_parse_date_time(t@) is None)
            },
{
    lemma_records_spec_elements(rows);
    if records_spec(rows) is None {
        let i = choose|i: int| 0 <= i < rows.len() && (#[trigger] rows[i].spec_record()) is None;
        assert(rows[i] == rows[i]);
    } else {
        assert forall|i: int| #![trigger rows[i]] 0 <= i < rows.len() implies !({
            ||| (rows[i].date_created matches Some(t) && chrono_parse_date_time(t@) is None)
            ||| (rows[i].date_updated matches Some(t) && chrono_parse_date_time(t@) is None)
        }) by {
            assert(rows[i].spec_record() is Some);
        }
    }
}

} // verus!
