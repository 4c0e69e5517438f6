use crate::dates::{chrono_parse_date_time, date_time_column, opt_text, read_date_time_column, DateTimeParts};
use crate::model::{CreateLiteExt, DataConext, QueryContext, QueryFilterContext};
use crate::sql::{
    change_messages, create_messages, lemma_records_spec_elements, records_from_rows, records_spec, views,
    MessagesView, RowRecord, SqlCommand, SqlCommandView, SqlQuery, SqlQueryView, SqlValue,
    SqlValueView, CONNECT_FAILED, DELETE_FAILED, INSERT_DONE, INSERT_FAILED, TABLE_CREATED,
    TABLE_CREATE_FAILED, UPDATE_DONE, UPDATE_FAILED,
};
use vstd::prelude::*;

verus! {

/// A product category as stored in the `Category` table.
#[derive(Clone, Debug)]
pub struct CategoryLite {
    pub id: u32,
    pub name: String,
    pub description: String,
    pub date_created: Option<DateTimeParts>,
    pub date_updated: Option<DateTimeParts>,
}

pub struct CategoryView {
    pub id: u32,
    pub name: Seq<char>,
    pub description: Seq<char>,
    pub date_created: Option<DateTimeParts>,
    pub date_updated: Option<DateTimeParts>,
}

impl View for CategoryLite {
    type V = CategoryView;

    open spec fn view(&self) -> CategoryView {
        CategoryView {
            id: self.id,
            name: self.name@,
            description: self.description@,
            date_created: self.date_created,
            date_updated: self.date_updated,
        }
    }
}

pub const CREATE_SQL: &'static str = "CREATE TABLE IF NOT EXISTS Category ( id INTEGER PRIMARY KEY AUTOINCREMENT, name TEXT NOT NULL, description TEXT NULL, date_created DATETIME DEFAULT (datetime('now')), date_updated DATETIME DEFUALT NULL);";

pub const INSERT_SQL: &'static str = "INSERT INTO Category (name, description) VALUES(?, ?);";

pub const DELETE_SQL: &'static str = "DELETE FROM Category WHERE id = ?;";

pub const UPDATE_SQL: &'static str = "UPDATE Category SET name = ?, description = ?, date_updated= (datetime('now')) WHERE id = ?;";

pub const SELECT_ALL_SQL: &'static str = "SELECT id, name, description, date_created, date_updated FROM Category ORDER BY id DESC;";

pub const SELECT_NAMES_SQL: &'static str = "SELECT id, name FROM Category ORDER BY name DESC;";

/// A category that holds only its key: no name, no description, no dates.
pub open spec fn key_only(c: CategoryView, id: u32) -> bool {
    c == CategoryView {
        id,
        name: Seq::empty(),
        description: Seq::empty(),
        date_created: None,
        date_updated: None,
    }
}

fn key_only_category(id: u32) -> (c: CategoryLite)
    ensures
        key_only(c@, id),
{
    let c = CategoryLite {
        id,
        name: String::new(),
        description: String::new(),
        date_created: None,
        date_updated: None,
    };
    assert(c@ =~= (CategoryView {
        id,
        name: Seq::empty(),
        description: Seq::empty(),
        date_created: None,
        date_updated: None,
    }));
    c
}

impl CategoryLite {
    /// A new category, not yet stored: key 0 and no dates.
    pub fn new(name: String, description: String) -> (c: Self)
        ensures
            c@ == (CategoryView {
                id: 0,
                name: name@,
                description: description@,
                date_created: None,
                date_updated: None,
            }),
    {
        CategoryLite { id: 0, name, description, date_created: None, date_updated: None }
    }

    /// A category as the database holds it, with both dates.
    pub fn data_new(
        id: u32,
        name: String,
        description: String,
        date_created: DateTimeParts,
        date_updated: DateTimeParts,
    ) -> (c: Self)
        ensures
            c@ == (CategoryView {
                id,
                name: name@,
                description: description@,
                date_created: Some(date_created),
                date_updated: Some(date_updated),
            }),
    {
        CategoryLite {
            id,
            name,
            description,
            date_created: Some(date_created),
            date_updated: Some(date_updated),
        }
    }
}

impl CreateLiteExt for CategoryLite {
    type Output = CategoryLite;
    type Key = u32;

    fn del(key: u32) -> (c: CategoryLite)
        ensures
            key_only(c@, key),
    {
        key_only_category(key)
    }

    fn upd(key: u32) -> (c: CategoryLite)
        ensures
            key_only(c@, key),
    {
        key_only_category(key)
    }

    fn empty() -> (c: CategoryLite)
        ensures
            key_only(c@, 0),
    {
        key_only_category(0)
    }
}

/// The statement that creates the table, with its report texts.
pub open spec fn create_command() -> SqlCommandView {
    SqlCommandView {
        sql: CREATE_SQL@,
        params: seq![],
        messages: MessagesView {
            done: TABLE_CREATED@,
            failed: TABLE_CREATE_FAILED@,
            connect_failed: CONNECT_FAILED@,
        },
    }
}

impl DataConext for CategoryLite {
    fn create(&self) -> (c: SqlCommand)
        ensures
            c@ == create_command(),
    {
        let c = SqlCommand {
            sql: CREATE_SQL,
            params: Vec::new(),
            messages: create_messages(CONNECT_FAILED),
        };
        assert(c@.params =~= seq![]);
        c
    }

    fn insert(&self) -> (c: SqlCommand)
        ensures
            c@ == (SqlCommandView {
                sql: INSERT_SQL@,
                params: seq![SqlValueView::Text(self.name@), SqlValueView::Text(self.description@)],
                messages: MessagesView {
                    done: INSERT_DONE@,
                    failed: INSERT_FAILED@,
                    connect_failed: CONNECT_FAILED@,
                },
            }),
    {
        let mut params: Vec<SqlValue> = Vec::new();
        params.push(SqlValue::Text(self.name.clone()));
        params.push(SqlValue::Text(self.description.clone()));
        let c = SqlCommand {
            sql: INSERT_SQL,
            params,
            messages: change_messages(INSERT_DONE, INSERT_FAILED),
        };
        assert(c@.params =~= seq![
            SqlValueView::Text(self.name@),
            SqlValueView::Text(self.description@),
        ]);
        c
    }

    fn delete(&self) -> (c: SqlCommand)
        ensures
            c@ == (SqlCommandView {
                sql: DELETE_SQL@,
                params: seq![SqlValueView::Integer(self.id as int)],
                messages: MessagesView {
                    done: INSERT_DONE@,
                    failed: DELETE_FAILED@,
                    connect_failed: CONNECT_FAILED@,
                },
            }),
    {
        let mut params: Vec<SqlValue> = Vec::new();
        params.push(SqlValue::Integer(self.id as i64));
        let c = SqlCommand {
            sql: DELETE_SQL,
            params,
            messages: change_messages(INSERT_DONE, DELETE_FAILED),
        };
        assert(c@.params =~= seq![SqlValueView::Integer(self.id as int)]);
        c
    }

    fn update(&self) -> (c: SqlCommand)
        ensures
            c@ == (SqlCommandView {
                sql: UPDATE_SQL@,
                params: seq![
                    SqlValueView::Text(self.name@),
                    SqlValueView::Text(self.description@),
                    SqlValueView::Integer(self.id as int),
                ],
                messages: MessagesView {
                    done: UPDATE_DONE@,
                    failed: UPDATE_FAILED@,
                    connect_failed: CONNECT_FAILED@,
                },
            }),
    {
        let mut params: Vec<SqlValue> = Vec::new();
        params.push(SqlValue::Text(self.name.clone()));
        params.push(SqlValue::Text(self.description.clone()));
        params.push(SqlValue::Integer(self.id as i64));
        let c = SqlCommand {
            sql: UPDATE_SQL,
            params,
            messages: change_messages(UPDATE_DONE, UPDATE_FAILED),
        };
        assert(c@.params =~= seq![
            SqlValueView::Text(self.name@),
            SqlValueView::Text(self.description@),
            SqlValueView::Integer(self.id as int),
        ]);
        c
    }
}

/// A row of `SELECT_ALL_SQL`, the dates as the database stores them.
pub struct CategoryRow {
    pub id: u32,
    pub name: String,
    pub description: String,
    pub date_created: Option<String>,
    pub date_updated: Option<String>,
}

/// A row of `SELECT_NAMES_SQL`.
pub struct CategoryNameRow {
    pub id: u32,
    pub name: String,
}

impl CategoryRow {
    /// The category of this row once its date columns have been read.
    pub fn to_category(
        &self,
        date_created: Option<DateTimeParts>,
        date_updated: Option<DateTimeParts>,
    ) -> (c: CategoryLite)
        ensures
            c@ == (CategoryView {
                id: self.id,
                name: self.name@,
                description: self.description@,
                date_created,
                date_updated,
            }),
    {
        CategoryLite {
            id: self.id,
            name: self.name.clone(),
            description: self.description.clone(),
            date_created,
            date_updated,
        }
    }
}

impl RowRecord for CategoryRow {
    type Record = CategoryLite;

    open spec fn spec_record(&self) -> Option<CategoryView> {
        match (
            date_time_column(opt_text(self.date_created)),
            date_time_column(opt_text(self.date_updated)),
        ) {
            (Some(created), Some(updated)) => Some(
                CategoryView {
                    id: self.id,
                    name: self.name@,
                    description: self.description@,
                    date_created: created,
                    date_updated: updated,
                },
            ),
            _ => None,
        }
    }

    fn record(&self) -> (r: Option<CategoryLite>) {
        let created = read_date_time_column(&self.date_created);
        let updated = read_date_time_column(&self.date_updated);
        match (created, updated) {
            (Some(date_created), Some(date_updated)) => Some(
                self.to_category(date_created, date_updated),
            ),
            _ => None,
        }
    }
}

impl RowRecord for CategoryNameRow {
    type Record = CategoryLite;

    open spec fn spec_record(&self) -> Option<CategoryView> {
        Some(
            CategoryView {
                id: self.id,
                name: self.name@,
                description: Seq::empty(),
                date_created: None,
                date_updated: None,
            },
        )
    }

    fn record(&self) -> (r: Option<CategoryLite>) {
        let c = CategoryLite {
            id: self.id,
            name: self.name.clone(),
            description: String::new(),
            date_created: None,
            date_updated: None,
        };
        assert(c@ =~= self.spec_record()->0);
        Some(c)
    }
}

impl QueryContext for CategoryLite {
    type Row = CategoryRow;
    type Output = Option<Vec<CategoryLite>>;

    fn get_all_query(&self) -> (q: SqlQuery)
        ensures
            q@ == (SqlQueryView { sql: SELECT_ALL_SQL@, params: seq![] }),
    {
        let q = SqlQuery { sql: SELECT_ALL_SQL, params: Vec::new() };
        assert(q@.params =~= seq![]);
        q
    }

    /// All categories, newest key first as the query orders them; nothing when
    /// a stored date does not read.
    fn get_all(&self, rows: &Vec<CategoryRow>) -> (r: Option<Vec<CategoryLite>>)
        ensures
            match r {
                Some(v) => records_spec(rows@) == Some(views(v@)),
                None => records_spec(rows@) is None,
            },
    {
        records_from_rows(rows)
    }
}

impl QueryFilterContext for CategoryLite {
    type Row = CategoryNameRow;
    type Output = Option<Vec<CategoryLite>>;

    fn get_filter_query(&self) -> (q: SqlQuery)
        ensures
            q@ == (SqlQueryView { sql: SELECT_NAMES_SQL@, params: seq![] }),
    {
        let q = SqlQuery { sql: SELECT_NAMES_SQL, params: Vec::new() };
        assert(q@.params =~= seq![]);
        q
    }

    /// The key and name of every category, for choosing one; the other fields
    /// are empty.
    fn get_filter(&self, rows: &Vec<CategoryNameRow>) -> (r: Option<Vec<CategoryLite>>)
        ensures
            match r {
                Some(v) => records_spec(rows@) == Some(views(v@)),
                None => records_spec(rows@) is None,
            },
            r is Some,
    {
        let r = records_from_rows(rows);
        proof {
            if r is None {
                assert forall|i: int| 0 <= i < rows@.len() implies (
                #[trigger] rows@[i].spec_record()) is Some by {}
            }
        }
        r
    }
}

/// Listing categories keeps every row's key, name and description, in the
/// rows' order; an empty date column gives no date, and a date text gives the
/// date-time chrono reads from it. The list is refused exactly when some row
/// holds a date text that chrono does not read.
pub proof fn lemma_listed_categories_keep_columns(rows: Seq<CategoryRow>)
    ensures
        records_spec(rows) matches Some(v) ==> v.len() == rows.len() && forall|i: int|
            #![trigger v[i]]
            0 <= i < rows.len() ==> {
                &&& v[i].id == rows[i].id
                &&& v[i].name == rows[i].name@
                &&& v[i].description == rows[i].description@
                &&& (rows[i].date_created is None ==> v[i].date_created is None)
                &&& (rows[i].date_created matches Some(t) ==> v[i].date_created
                    == chrono_parse_date_time(t@))
                &&& (rows[i].date_updated is None ==> v[i].date_updated is None)
                &&& (rows[i].date_updated matches Some(t) ==> v[i].date_updated
                    == chrono_parse_date_time(t@))
            },
        records_spec(rows) is None <==> exists|i: int|
            #![trigger rows[i]]
            0 <= i < rows.len() && {
                ||| (rows[i].date_created matches Some(t) && chrono_parse_date_time(t@) is None)
                ||| (rows[i].date_updated matches Some(t) && chrono_parse_date_time(t@) is None)
            },
{
    lemma_records_spec_elements(rows);
    if records_spec(rows) is None {
        let i = choose|i: int| 0 <= i < rows.len() && (#[trigger] rows[i].spec_record()) is None;
        assert(rows[i] == rows[i]);
    } else {
        assert forall|i: int| #![trigger rows[i]] 0 <= i < rows.len() implies !({
            ||| (rows[i].date_created matches Some(t) && chrono_parse_date_time(t@) is None)
            ||| (rows[i].date_updated matches Some(t) && chrono_parse_date_time(t@) is None)
        }) by {
            assert(rows[i].spec_record() is Some);
        }
    }
}

/// The category choices keep every row's key and name, in the rows' order,
/// with no description and no dates; they are never refused.
pub proof fn lemma_category_choices_keep_columns(rows: Seq<CategoryNameRow>)
    ensures
        records_spec(rows) matches Some(v) && v.len() == rows.len() && forall|i: int|
            #![trigger v[i]]
            0 <= i < rows.len() ==> {
                &&& v[i].id == rows[i].id
                &&& v[i].name == rows[i].name@
                &&& v[i].description.len() == 0
                &&& v[i].date_created is None
                &&& v[i].date_updated is None
            },
{
    lemma_records_spec_elements(rows);
    assert forall|i: int| 0 <= i < rows.len() implies (#[trigger] rows[i].spec_record()) is Some by {}
}

} // verus!
