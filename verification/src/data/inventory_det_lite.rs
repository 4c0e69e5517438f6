use crate::dates::{
    chrono_parse_date, chrono_parse_date_time, lemma_padded_digits, padded, year_text,
    date_column, date_text, date_time_column, format_date, opt_text, read_date_column,
    read_date_time_column, DateParts, DateTimeParts,
};
use crate::model::{CreateLiteExt, DataConext, QueryContext, QueryFilterContext};
use crate::sql::{
    change_messages, create_messages, lemma_records_spec_elements, records_from_rows, records_spec, views, MessagesView,
    RowRecord, SqlCommand, SqlCommandView, SqlQuery, SqlQueryView, SqlValue, SqlValueView,
    CONNECT_FAILED, CONNECT_FAILED_CAPITAL, DELETE_FAILED, INSERT_DONE, INSERT_FAILED,
    TABLE_CREATED, TABLE_CREATE_FAILED, UPDATE_FAILED,
};
use crate::text::{all_digits, digits_value};
use vstd::prelude::*;

verus! {

/// A line of an inventory, stored in the `Inventory_detail` table: a counted
/// stock of one product, in a kind of box, with a status and the date the
/// product expires.
#[derive(Clone, Debug)]
pub struct InventoryDetLite {
    pub id_ivt_det: u32,
    pub inv_id: u32,
    pub barcode: String,
    pub box_id: u8,
    pub stock: u32,
    pub status_id: u8,
    pub date_expiration: Option<DateParts>,
    pub date_created: Option<DateTimeParts>,
    pub date_updated: Option<DateTimeParts>,
}

pub struct InventoryDetView {
    pub id_ivt_det: u32,
    pub inv_id: u32,
    pub barcode: Seq<char>,
    pub box_id: u8,
    pub stock: u32,
    pub status_id: u8,
    pub date_expiration: Option<DateParts>,
    pub date_created: Option<DateTimeParts>,
    pub date_updated: Option<DateTimeParts>,
}

impl View for InventoryDetLite {
    type V = InventoryDetView;

    open spec fn view(&self) -> InventoryDetView {
        InventoryDetView {
            id_ivt_det: self.id_ivt_det,
            inv_id: self.inv_id,
            barcode: self.barcode@,
            box_id: self.box_id,
            stock: self.stock,
            status_id: self.status_id,
            date_expiration: self.date_expiration,
            date_created: self.date_created,
            date_updated: self.date_updated,
        }
    }
}

pub const CREATE_SQL: &'static str = "CREATE TABLE IF NOT EXISTS Inventory_detail ( id_ivt_det INTEGER PRIMARY KEY AUTOINCREMENT, id_inv INTEGER, barcode TEXT NOT NULL, box_id INTEGER NOT NULL, stock INTEGER NOT NULL, date_expiration DATE NOT NULL, status_id INTEGER NOT NULL, date_created DATETIME DEFAULT (datetime('now')), date_updated DATETIME DEFAULT NULL, FOREIGN KEY(id_inv) REFERENCES Inventory(id_inv), FOREIGN KEY(barcode) REFERENCES Product(barcode));";

pub const INSERT_SQL: &'static str = "INSERT INTO Inventory_detail (id_inv, barcode, box_id, status_id, stock, date_expiration) VALUES (?,?,?,?,?,?);";

pub const DELETE_SQL: &'static str = "DELETE FROM Inventory_detail WHERE id_ivt_det = ?;";

pub const UPDATE_SQL: &'static str = "UPDATE Inventory_detail SET barcode = ?, box_id = ?, status_id = ? , stock = ?, date_expiration = ?, date_updated= (datetime('now')) WHERE id_ivt_det = ?;";

pub const SELECT_ALL_SQL: &'static str = "SELECT id_ivt_det, id_inv, barcode, stock, date_expiration, status_id, box_id, date_created, date_updated FROM Inventory_detail ORDER BY id_inv DESC;";

pub const SELECT_OF_INVENTORY_SQL: &'static str = "SELECT id_ivt_det, id_inv, barcode, stock, date_expiration, status_id, box_id, date_created, date_updated FROM Inventory_detail WHERE id_inv = ? ORDER BY id_inv DESC;";

/// A line that holds only its key.
pub open spec fn key_only(l: InventoryDetView, id: u32) -> bool {
    l == InventoryDetView {
        id_ivt_det: id,
        inv_id: 0,
        barcode: Seq::empty(),
        box_id: 0,
        stock: 0,
        status_id: 0,
        date_expiration: None,
        date_created: None,
        date_updated: None,
    }
}

fn key_only_line(id: u32) -> (l: InventoryDetLite)
    ensures
        key_only(l@, id),
{
    let l = InventoryDetLite {
        id_ivt_det: id,
        inv_id: 0,
        barcode: String::new(),
        box_id: 0,
        stock: 0,
        status_id: 0,
        date_expiration: None,
        date_created: None,
        date_updated: None,
    };
    assert(l@ =~= (InventoryDetView {
        id_ivt_det: id,
        inv_id: 0,
        barcode: Seq::empty(),
        box_id: 0,
        stock: 0,
        status_id: 0,
        date_expiration: None,
        date_created: None,
        date_updated: None,
    }));
    l
}

/// The value bound for an expiry date: its `YYYY-MM-DD` text, or NULL.
pub open spec fn expiration_param(d: Option<DateParts>) -> SqlValueView {
    match d {
        Some(date) => SqlValueView::Text(date_text(date)),
        None => SqlValueView::Null,
    }
}

fn expiration_value(d: Option<DateParts>) -> (v: SqlValue)
    ensures
        v@ == expiration_param(d),
{
    match d {
        Some(date) => SqlValue::Text(format_date(date)),
        None => SqlValue::Null,
    }
}

impl InventoryDetLite {
    /// A new line of inventory `id_inv`, not yet stored: key 0 and no dates of
    /// its own.
    pub fn new(
        id_inv: u32,
        barcode: String,
        stock: u32,
        id_status: u8,
        id_box: u8,
        date_caducity: Option<DateParts>,
    ) -> (l: Self)
        ensures
            l@ == (InventoryDetView {
                id_ivt_det: 0,
                inv_id: id_inv,
                barcode: barcode@,
                box_id: id_box,
                stock,
                status_id: id_status,
                date_expiration: date_caducity,
                date_created: None,
                date_updated: None,
            }),
    {
        InventoryDetLite {
            id_ivt_det: 0,
            inv_id: id_inv,
            barcode,
            box_id: id_box,
            stock,
            date_expiration: date_caducity,
            status_id: id_status,
            date_created: None,
            date_updated: None,
        }
    }
}

impl CreateLiteExt for InventoryDetLite {
    type Output = InventoryDetLite;
    type Key = u32;

    fn del(key: u32) -> (l: InventoryDetLite)
        ensures
            key_only(l@, key),
    {
        key_only_line(key)
    }

    fn upd(key: u32) -> (l: InventoryDetLite)
        ensures
            key_only(l@, key),
    {
        key_only_line(key)
    }

    fn empty() -> (l: InventoryDetLite)
        ensures
            key_only(l@, 0),
    {
        key_only_line(0)
    }
}

/// The statement that creates the table, with its report texts.
pub open spec fn create_command() -> SqlCommandView {
    SqlCommandView {
        sql: CREATE_SQL@,
        params: seq![],
        messages: MessagesView {
            done: TABLE_CREATED@,
            failed: TABLE_CREATE_FAILED@,
            connect_failed: CONNECT_FAILED_CAPITAL@,
        },
    }
}

impl DataConext for InventoryDetLite {
    fn create(&self) -> (c: SqlCommand)
        ensures
            c@ == create_command(),
    {
        let c = SqlCommand {
            sql: CREATE_SQL,
            params: Vec::new(),
            messages: create_messages(CONNECT_FAILED_CAPITAL),
        };
        assert(c@.params =~= seq![]);
        c
    }

    fn insert(&self) -> (c: SqlCommand)
        ensures
            c@ == (SqlCommandView {
                sql: INSERT_SQL@,
                params: seq![
                    SqlValueView::Integer(self.inv_id as int),
                    SqlValueView::Text(self.barcode@),
                    SqlValueView::Integer(self.box_id as int),
                    SqlValueView::Integer(self.status_id as int),
                    SqlValueView::Integer(self.stock as int),
                    expiration_param(self.date_expiration),
                ],
                messages: MessagesView {
                    done: INSERT_DONE@,
                    failed: INSERT_FAILED@,
                    connect_failed: CONNECT_FAILED@,
                },
            }),
    {
        let mut params: Vec<SqlValue> = Vec::new();
        params.push(SqlValue::Integer(self.inv_id as i64));
        params.push(SqlValue::Text(self.barcode.clone()));
        params.push(SqlValue::Integer(self.box_id as i64));
        params.push(SqlValue::Integer(self.status_id as i64));
        params.push(SqlValue::Integer(self.stock as i64));
        params.push(expiration_value(self.date_expiration));
        let c = SqlCommand {
            sql: INSERT_SQL,
            params,
            messages: change_messages(INSERT_DONE, INSERT_FAILED),
        };
        assert(c@.params =~= seq![
            SqlValueView::Integer(self.inv_id as int),
            SqlValueView::Text(self.barcode@),
            SqlValueView::Integer(self.box_id as int),
            SqlValueView::Integer(self.status_id as int),
            SqlValueView::Integer(self.stock as int),
            expiration_param(self.date_expiration),
        ]);
        c
    }

    fn delete(&self) -> (c: SqlCommand)
        ensures
            c@ == (SqlCommandView {
                sql: DELETE_SQL@,
                params: seq![SqlValueView::Integer(self.id_ivt_det as int)],
                messages: MessagesView {
                    done: INSERT_DONE@,
                    failed: DELETE_FAILED@,
                    connect_failed: CONNECT_FAILED@,
                },
            }),
    {
        let mut params: Vec<SqlValue> = Vec::new();
        params.push(SqlValue::Integer(self.id_ivt_det as i64));
        let c = SqlCommand {
            sql: DELETE_SQL,
            params,
            messages: change_messages(INSERT_DONE, DELETE_FAILED),
        };
        assert(c@.params =~= seq![SqlValueView::Integer(self.id_ivt_det as int)]);
        c
    }

    fn update(&self) -> (c: SqlCommand)
        ensures
            c@ == (SqlCommandView {
                sql: UPDATE_SQL@,
                params: seq![
                    SqlValueView::Text(self.barcode@),
                    SqlValueView::Integer(self.box_id as int),
                    SqlValueView::Integer(self.status_id as int),
                    SqlValueView::Integer(self.stock as int),
                    expiration_param(self.date_expiration),
                    SqlValueView::Integer(self.id_ivt_det as int),
                ],
                messages: MessagesView {
                    done: INSERT_DONE@,
                    failed: UPDATE_FAILED@,
                    connect_failed: CONNECT_FAILED@,
                },
            }),
    {
        let mut params: Vec<SqlValue> = Vec::new();
        params.push(SqlValue::Text(self.barcode.clone()));
        params.push(SqlValue::Integer(self.box_id as i64));
        params.push(SqlValue::Integer(self.status_id as i64));
        params.push(SqlValue::Integer(self.stock as i64));
        params.push(expiration_value(self.date_expiration));
        params.push(SqlValue::Integer(self.id_ivt_det as i64));
        let c = SqlCommand {
            sql: UPDATE_SQL,
            params,
            messages: change_messages(INSERT_DONE, UPDATE_FAILED),
        };
        assert(c@.params =~= seq![
            SqlValueView::Text(self.barcode@),
            SqlValueView::Integer(self.box_id as int),
            SqlValueView::Integer(self.status_id as int),
            SqlValueView::Integer(self.stock as int),
            expiration_param(self.date_expiration),
            SqlValueView::Integer(self.id_ivt_det as int),
        ]);
        c
    }
}

/// A row of the detail queries, in the queries' column order, the dates as the
/// database stores them.
pub struct InventoryDetRow {
    pub id_ivt_det: u32,
    pub inv_id: u32,
    pub barcode: String,
    pub stock: u32,
    pub date_expiration: Option<String>,
    pub status_id: u8,
    pub box_id: u8,
    pub date_created: Option<String>,
    pub date_updated: Option<String>,
}

impl InventoryDetRow {
    /// The line of this row once its date columns have been read.
    pub fn to_line(
        &self,
        date_expiration: Option<DateParts>,
        date_created: Option<DateTimeParts>,
        date_updated: Option<DateTimeParts>,
    ) -> (l: InventoryDetLite)
        ensures
            l@ == (InventoryDetView {
                id_ivt_det: self.id_ivt_det,
                inv_id: self.inv_id,
                barcode: self.barcode@,
                box_id: self.box_id,
                stock: self.stock,
                status_id: self.status_id,
                date_expiration,
                date_created,
                date_updated,
            }),
    {
        InventoryDetLite {
            id_ivt_det: self.id_ivt_det,
            inv_id: self.inv_id,
            barcode: self.barcode.clone(),
            box_id: self.box_id,
            stock: self.stock,
            status_id: self.status_id,
            date_expiration,
            date_created,
            date_updated,
        }
    }
}

impl RowRecord for InventoryDetRow {
    type Record = InventoryDetLite;

    open spec fn spec_record(&self) -> Option<InventoryDetView> {
        match (
            date_column(opt_text(self.date_expiration)),
            date_time_column(opt_text(self.date_created)),
            date_time_column(opt_text(self.date_updated)),
        ) {
            (Some(expiration), Some(created), Some(updated)) => Some(
                InventoryDetView {
                    id_ivt_det: self.id_ivt_det,
                    inv_id: self.inv_id,
                    barcode: self.barcode@,
                    box_id: self.box_id,
                    stock: self.stock,
                    status_id: self.status_id,
                    date_expiration: expiration,
                    date_created: created,
                    date_updated: updated,
                },
            ),
            _ => None,
        }
    }

    fn record(&self) -> (r: Option<InventoryDetLite>) {
        let expiration = read_date_column(&self.date_expiration);
        let created = read_date_time_column(&self.date_created);
        let updated = read_date_time_column(&self.date_updated);
        match (expiration, created, updated) {
            (Some(date_expiration), Some(date_created), Some(date_updated)) => Some(
                self.to_line(date_expiration, date_created, date_updated),
            ),
            _ => None,
        }
    }
}

impl QueryContext for InventoryDetLite {
    type Row = InventoryDetRow;
    type Output = Option<Vec<InventoryDetLite>>;

    fn get_all_query(&self) -> (q: SqlQuery)
        ensures
            q@ == (SqlQueryView { sql: SELECT_ALL_SQL@, params: seq![] }),
    {
        let q = SqlQuery { sql: SELECT_ALL_SQL, params: Vec::new() };
        assert(q@.params =~= seq![]);
        q
    }

    /// All lines of all inventories; nothing when a stored date does not read.
    fn get_all(&self, rows: &Vec<InventoryDetRow>) -> (r: Option<Vec<InventoryDetLite>>)
        ensures
            match r {
                Some(v) => records_spec(rows@) == Some(views(v@)),
                None => records_spec(rows@) is None,
            },
    {
        records_from_rows(rows)
    }
}

impl QueryFilterContext for InventoryDetLite {
    type Row = InventoryDetRow;
    type Output = Option<Vec<InventoryDetLite>>;

    /// The lines of this record's inventory (`inv_id`).
    fn get_filter_query(&self) -> (q: SqlQuery)
        ensures
            q@ == (SqlQueryView {
                sql: SELECT_OF_INVENTORY_SQL@,
                params: seq![SqlValueView::Integer(self.inv_id as int)],
            }),
    {
        let mut params: Vec<SqlValue> = Vec::new();
        params.push(SqlValue::Integer(self.inv_id as i64));
        let q = SqlQuery { sql: SELECT_OF_INVENTORY_SQL, params };
        assert(q@.params =~= seq![SqlValueView::Integer(self.inv_id as int)]);
        q
    }

    fn get_filter(&self, rows: &Vec<InventoryDetRow>) -> (r: Option<Vec<InventoryDetLite>>)
        ensures
            match r {
                Some(v) => records_spec(rows@) == Some(views(v@)),
                None => records_spec(rows@) is None,
            },
    {
        records_from_rows(rows)
    }
}

/// Listing the lines of an inventory keeps every column of every row: each
/// line has the key, inventory, barcode, stock, box kind and status of its row,
/// in the rows' order; an empty date column gives no date, and a date text
/// gives the date chrono reads from it. The list is refused exactly when some
/// row holds a date text that chrono does not read.
pub proof fn lemma_listed_lines_keep_columns(rows: Seq<InventoryDetRow>)
    ensures
        records_spec(rows) matches Some(v) ==> v.len() == rows.len() && forall|i: int|
            #![trigger v[i]]
            0 <= i < rows.len() ==> {
                &&& v[i].id_ivt_det == rows[i].id_ivt_det
                &&& v[i].inv_id == rows[i].inv_id
                &&& v[i].barcode == rows[i].barcode@
                &&& v[i].stock == rows[i].stock
                &&& v[i].box_id == rows[i].box_id
                &&& v[i].status_id == rows[i].status_id
                &&& (rows[i].date_expiration is None ==> v[i].date_expiration is None)
                &&& (rows[i].date_expiration matches Some(t) ==> v[i].date_expiration
                    == chrono_parse_date(t@))
                &&& (rows[i].date_created is None ==> v[i].date_created is None)
                &&& (rows[i].date_created matches Some(t) ==> v[i].date_created
                    == chrono_parse_date_time(t@))
                &&& (rows[i].date_updated is None ==> v[i].date_updated is None)
                &&& (rows[i].date_updated matches Some(t) ==> v[i].date_updated
                    == chrono_parse_date_time(t@))
            },
        records_spec(rows) is None <==> exists|i: int|
            #![trigger rows[i]]
            0 <= i < rows.len() && {
                ||| (rows[i].date_expiration matches Some(t) && chrono_parse_date(t@) is None)
                ||| (rows[i].date_created matches Some(t) && chrono_parse_date_time(t@) is None)
                ||| (rows[i].date_updated matches Some(t) && chrono_parse_date_time(t@) is None)
            },
{
    lemma_records_spec_elements(rows);
    if records_spec(rows) is None {
        let i = choose|i: int| 0 <= i < rows.len() && (#[trigger] rows[i].spec_record()) is None;
        assert(rows[i] == rows[i]);
    } else {
        assert forall|i: int| #![trigger rows[i]] 0 <= i < rows.len() implies !({
            ||| (rows[i].date_expiration matches Some(t) && chrono_parse_date(t@) is None)
            ||| (rows[i].date_created matches Some(t) && chrono_parse_date_time(t@) is None)
            ||| (rows[i].date_updated matches Some(t) && chrono_parse_date_time(t@) is None)
        }) by {
            assert(rows[i].spec_record() is Some);
        }
    }
}

/// The bound expiry value is the date's own text: for a date of the years 0 to
/// 9999, ten characters `YYYY-MM-DD` whose digit groups denote the year, the
/// month and the day; for other years, the year's sign and digits in front of
/// `-MM-DD`. A line without an expiry date binds NULL.
pub proof fn lemma_expiration_param_is_date_text(d: DateParts)
    requires
        d.valid(),
    ensures
        expiration_param(None) == SqlValueView::Null,
        expiration_param(Some(d)) matches SqlValueView::Text(t) && {
            let n = t.len() as int;
            let y = t.subrange(0, n - 6);
            &&& n >= 10
            &&& t[n - 6] == '-'
            &&& t[n - 3] == '-'
            &&& all_digits(t.subrange(n - 5, n - 3))
            &&& digits_value(t.subrange(n - 5, n - 3)) == d.month
            &&& all_digits(t.subrange(n - 2, n))
            &&& digits_value(t.subrange(n - 2, n)) == d.day
            &&& (0 <= d.year <= 9999 ==> y.len() == 4 && all_digits(y) && digits_value(y)
                == d.year)
            &&& (d.year < 0 ==> y[0] == '-' && all_digits(y.drop_first()) && digits_value(
                y.drop_first(),
            ) == -d.year)
            &&& (d.year > 9999 ==> y[0] == '+' && all_digits(y.drop_first()) && digits_value(
                y.drop_first(),
            ) == d.year)
        },
{
    let t = date_text(d);
    let yt = year_text(d.year as int);
    let mt = padded(d.month as nat, 2);
    let dt = padded(d.day as nat, 2);
    lemma_padded_digits(d.month as nat, 2);
    lemma_padded_digits(d.day as nat, 2);
    assert(t == yt + seq!['-'] + mt + seq!['-'] + dt);
    let n = t.len() as int;
    assert(t.subrange(n - 5, n - 3) =~= mt);
    assert(t.subrange(n - 2, n) =~= dt);
    assert(t.subrange(0, n - 6) =~= yt);
    if 0 <= d.year <= 9999 {
        lemma_padded_digits(d.year as nat, 4);
    } else if d.year < 0 {
        lemma_padded_digits((-d.year) as nat, 4);
        assert(yt.drop_first() =~= padded((-d.year) as nat, 4));
    } else {
        lemma_padded_digits(d.year as nat, 4);
        assert(yt.drop_first() =~= padded(d.year as nat, 4));
    }
}

} // verus!
