use crate::dates::{chrono_parse_date_time, date_time_column, opt_text, read_date_time_column, DateTimeParts};
use crate::model::{CreateLiteExt, DataConext, QueryContext};
use crate::sql::{
    change_messages, create_messages, lemma_records_spec_elements, records_from_rows, records_spec, views, MessagesView,
    RowRecord, SqlCommand, SqlCommandView, SqlQuery, SqlQueryView, SqlValue, SqlValueView,
    CONNECT_FAILED, CONNECT_FAILED_CAPITAL, DELETE_FAILED, INSERT_DONE, INSERT_FAILED,
    TABLE_CREATED, TABLE_CREATE_FAILED, UPDATE_FAILED,
};
use vstd::prelude::*;

verus! {

/// A product as stored in the `Product` table, keyed by its barcode.
#[derive(Clone, Debug)]
pub struct ProductLite {
    pub barcode: String,
    pub name: String,
    pub description: String,
    pub categoryid: u32,
    pub date_created: Option<DateTimeParts>,
    pub date_updated: Option<DateTimeParts>,
}

pub struct ProductView {
    pub barcode: Seq<char>,
    pub name: Seq<char>,
    pub description: Seq<char>,
    pub categoryid: u32,
    pub date_created: Option<DateTimeParts>,
    pub date_updated: Option<DateTimeParts>,
}

impl View for ProductLite {
    type V = ProductView;

    open spec fn view(&self) -> ProductView {
        ProductView {
            barcode: self.barcode@,
            name: self.name@,
            description: self.description@,
            categoryid: self.categoryid,
            date_created: self.date_created,
            date_updated: self.date_updated,
        }
    }
}

pub const CREATE_SQL: &'static str = "CREATE TABLE IF NOT EXISTS Product ( barcode TEXT PRIMARY KEY, name TEXT NOT NULL, description TEXT NULL, categoryid INTEGER NOT NULL, date_created DATETIME DEFAULT (datetime('now')), date_updated DATETIME DEFAULT NULL, FOREIGN KEY (categoryid) REFERENCES Category(id));";

pub const INSERT_SQL: &'static str = "INSERT INTO Product (barcode, name, description, categoryid) VALUES(?, ?, ?, ?);";

pub const DELETE_SQL: &'static str = "DELETE FROM Product WHERE barcode = ?;";

pub const UPDATE_SQL: &'static str = "UPDATE Product SET name = ?, description = ?, categoryid = ?, date_updated= (datetime('now')) WHERE barcode = ?;";

pub const SELECT_ALL_SQL: &'static str = "SELECT barcode, name, description, categoryid, date_created, date_updated FROM Product ORDER BY date_created DESC;";

/// A product that holds only its barcode.
pub open spec fn key_only(p: ProductView, barcode: Seq<char>) -> bool {
    p == ProductView {
        barcode,
        name: Seq::empty(),
        description: Seq::empty(),
        categoryid: 0,
        date_created: None,
        date_updated: None,
    }
}

fn key_only_product(barcode: String) -> (p: ProductLite)
    ensures
        key_only(p@, barcode@),
{
    let p = ProductLite {
        barcode,
        name: String::new(),
        description: String::new(),
        categoryid: 0,
        date_created: None,
        date_updated: None,
    };
    assert(p@ =~= (ProductView {
        barcode: p.barcode@,
        name: Seq::empty(),
        description: Seq::empty(),
        categoryid: 0,
        date_created: None,
        date_updated: None,
    }));
    p
}

impl ProductLite {
    /// A new product, not yet stored: no dates.
    pub fn new(barcode: String, name: String, description: String, id_category: u32) -> (p: Self)
        ensures
            p@ == (ProductView {
                barcode: barcode@,
                name: name@,
                description: description@,
                categoryid: id_category,
                date_created: None,
                date_updated: None,
            }),
    {
        ProductLite {
            barcode,
            name,
            description,
            categoryid: id_category,
            date_created: None,
            date_updated: None,
        }
    }
}

impl CreateLiteExt for ProductLite {
    type Output = ProductLite;
    type Key = String;

    fn del(key: String) -> (p: ProductLite)
        ensures
            key_only(p@, key@),
    {
        key_only_product(key)
    }

    fn upd(key: String) -> (p: ProductLite)
        ensures
            key_only(p@, key@),
    {
        key_only_product(key)
    }

    fn empty() -> (p: ProductLite)
        ensures
            key_only(p@, Seq::empty()),
    {
        key_only_product(String::new())
    }
}

/// The statement that creates the table, with its report texts.
pub open spec fn create_command() -> SqlCommandView {
    SqlCommandView {
        sql: CREATE_SQL@,
        params: seq![],
        messages: MessagesView {
            done: TABLE_CREATED@,
            failed: TABLE_CREATE_FAILED@,
            connect_failed: CONNECT_FAILED_CAPITAL@,
        },
    }
}

impl DataConext for ProductLite {
    fn create(&self) -> (c: SqlCommand)
        ensures
            c@ == create_command(),
    {
        let c = SqlCommand {
            sql: CREATE_SQL,
            params: Vec::new(),
            messages: create_messages(CONNECT_FAILED_CAPITAL),
        };
        assert(c@.params =~= seq![]);
        c
    }

    fn insert(&self) -> (c: SqlCommand)
        ensures
            c@ == (SqlCommandView {
                sql: INSERT_SQL@,
                params: seq![
                    SqlValueView::Text(self.barcode@),
                    SqlValueView::Text(self.name@),
                    SqlValueView::Text(self.description@),
                    SqlValueView::Integer(self.categoryid as int),
                ],
                messages: MessagesView {
                    done: INSERT_DONE@,
                    failed: INSERT_FAILED@,
                    connect_failed: CONNECT_FAILED@,
                },
            }),
    {
        let mut params: Vec<SqlValue> = Vec::new();
        params.push(SqlValue::Text(self.barcode.clone()));
        params.push(SqlValue::Text(self.name.clone()));
        params.push(SqlValue::Text(self.description.clone()));
        params.push(SqlValue::Integer(self.categoryid as i64));
        let c = SqlCommand {
            sql: INSERT_SQL,
            params,
            messages: change_messages(INSERT_DONE, INSERT_FAILED),
        };
        assert(c@.params =~= seq![
            SqlValueView::Text(self.barcode@),
            SqlValueView::Text(self.name@),
            SqlValueView::Text(self.description@),
            SqlValueView::Integer(self.categoryid as int),
        ]);
        c
    }

    fn delete(&self) -> (c: SqlCommand)
        ensures
            c@ == (SqlCommandView {
                sql: DELETE_SQL@,
                params: seq![SqlValueView::Text(self.barcode@)],
                messages: MessagesView {
                    done: INSERT_DONE@,
                    failed: DELETE_FAILED@,
                    connect_failed: CONNECT_FAILED@,
                },
            }),
    {
        let mut params: Vec<SqlValue> = Vec::new();
        params.push(SqlValue::Text(self.barcode.clone()));
        let c = SqlCommand {
            sql: DELETE_SQL,
            params,
            messages: change_messages(INSERT_DONE, DELETE_FAILED),
        };
        assert(c@.params =~= seq![SqlValueView::Text(self.barcode@)]);
        c
    }

    fn update(&self) -> (c: SqlCommand)
        ensures
            c@ == (SqlCommandView {
                sql: UPDATE_SQL@,
                params: seq![
                    SqlValueView::Text(self.name@),
                    SqlValueView::Text(self.description@),
                    SqlValueView::Integer(self.categoryid as int),
                    SqlValueView::Text(self.barcode@),
                ],
                messages: MessagesView {
                    done: INSERT_DONE@,
                    failed: UPDATE_FAILED@,
                    connect_failed: CONNECT_FAILED@,
                },
            }),
    {
        let mut params: Vec<SqlValue> = Vec::new();
        params.push(SqlValue::Text(self.name.clone()));
        params.push(SqlValue::Text(self.description.clone()));
        params.push(SqlValue::Integer(self.categoryid as i64));
        params.push(SqlValue::Text(self.barcode.clone()));
        let c = SqlCommand {
            sql: UPDATE_SQL,
            params,
            messages: change_messages(INSERT_DONE, UPDATE_FAILED),
        };
        assert(c@.params =~= seq![
            SqlValueView::Text(self.name@),
            SqlValueView::Text(self.description@),
            SqlValueView::Integer(self.categoryid as int),
            SqlValueView::Text(self.barcode@),
        ]);
        c
    }
}

/// A row of `SELECT_ALL_SQL`, the dates as the database stores them.
pub struct ProductRow {
    pub barcode: String,
    pub name: String,
    pub description: String,
    pub categoryid: u32,
    pub date_created: Option<String>,
    pub date_updated: Option<String>,
}

impl ProductRow {
    /// The product of this row once its date columns have been read.
    pub fn to_product(
        &self,
        date_created: Option<DateTimeParts>,
        date_updated: Option<DateTimeParts>,
    ) -> (p: ProductLite)
        ensures
            p@ == (ProductView {
                barcode: self.barcode@,
                name: self.name@,
                description: self.description@,
                categoryid: self.categoryid,
                date_created,
                date_updated,
            }),
    {
        ProductLite {
            barcode: self.barcode.clone(),
            name: self.name.clone(),
            description: self.description.clone(),
            categoryid: self.categoryid,
            date_created,
            date_updated,
        }
    }
}

impl RowRecord for ProductRow {
    type Record = ProductLite;

    open spec fn spec_record(&self) -> Option<ProductView> {
        match (
            date_time_column(opt_text(self.date_created)),
            date_time_column(opt_text(self.date_updated)),
        ) {
            (Some(created), Some(updated)) => Some(
                ProductView {
                    barcode: self.barcode@,
                    name: self.name@,
                    description: self.description@,
                    categoryid: self.categoryid,
                    date_created: created,
                    date_updated: updated,
                },
            ),
            _ => None,
        }
    }

    fn record(&self) -> (r: Option<ProductLite>) {
        let created = read_date_time_column(&self.date_created);
        let updated = read_date_time_column(&self.date_updated);
        match (created, updated) {
            (Some(date_created), Some(date_updated)) => Some(
                self.to_product(date_created, date_updated),
            ),
            _ => None,
        }
    }
}

impl QueryContext for ProductLite {
    type Row = ProductRow;
    type Output = Option<Vec<ProductLite>>;

    fn get_all_query(&self) -> (q: SqlQuery)
        ensures
            q@ == (SqlQueryView { sql: SELECT_ALL_SQL@, params: seq![] }),
    {
        let q = SqlQuery { sql: SELECT_ALL_SQL, params: Vec::new() };
        assert(q@.params =~= seq![]);
        q
    }

    /// All products, in the order the query returns them (newest first);
    /// nothing when a stored date does not read.
    fn get_all(&self, rows: &Vec<ProductRow>) -> (r: Option<Vec<ProductLite>>)
        ensures
            match r {
                Some(v) => records_spec(rows@) == Some(views(v@)),
                None => records_spec(rows@) is None,
            },
    {
        records_from_rows(rows)
    }
}

/// Listing products keeps every row's barcode, name, description and
/// category, in the rows' order; an empty date column gives no date, and a date
/// text gives the date-time chrono reads from it. The list is refused exactly
/// when some row holds a date text that chrono does not read.
pub proof fn lemma_listed_products_keep_columns(rows: Seq<ProductRow>)
    ensures
        records_spec(rows) matches Some(v) ==> v.len() == rows.len() && forall|i: int|
            #![trigger v[i]]
            0 <= i < rows.len() ==> {
                &&& v[i].barcode == rows[i].barcode@
                &&& v[i].name == rows[i].name@
                &&& v[i].description == rows[i].description@
                &&& v[i].categoryid == rows[i].categoryid
                &&& (rows[i].date_created is None ==> v[i].date_created is None)
                &&& (rows[i].date_created matches Some(t) ==> v[i].date_created
                    == chrono_parse_date_time(t@))
                &&& (rows[i].date_updated is None ==> v[i].date_updated is None)
                &&& (rows[i].date_updated matches Some(t) ==> v[i].date_updated
                    == chrono_parse_date_time(t@))
            },
        records_spec(rows) is None <==> exists|i: int|
            #![trigger rows[i]]
            0 <= i < rows.len() && {
                ||| (rows[i].date_created matches Some(t) && chrono_parse_date_time(t@) is None)
                ||| (rows[i].date_updated matches Some(t) && chrono_parse_date_time(t@) is None)
            },
{
    lemma_records_spec_elements(rows);
    if records_spec(rows) is None {
        let i = choose|i: int| 0 <= i < rows.len() && (#[trigger] rows[i].spec_record()) is None;
        assert(rows[i] == rows[i]);
    } else {
        assert forall|i: int| #![trigger rows[i]] 0 <= i < rows.len() implies !({
            ||| (rows[i].date_created matches Some(t) && chrono_parse_date_time(t@) is None)
            ||| (rows[i].date_updated matches Some(t) && chrono_parse_date_time(t@) is None)
        }) by {
            assert(rows[i].spec_record() is Some);
        }
    }
}

} // verus!
