//! Statements as values: the SQL text a record issues, the values bound to its
//! placeholders, and the text reported once the database has answered.
use crate::text::{decimal, i64_to_text, signed_decimal, u64_to_text};
use vstd::prelude::*;

verus! {

/// A value bound to a `?` placeholder.
#[derive(Clone, Debug, PartialEq, Eq)]
pub enum SqlValue {
    Integer(i64),
    Text(String),
    Null,
}

pub enum SqlValueView {
    Integer(int),
    Text(Seq<char>),
    Null,
}

impl View for SqlValue {
    type V = SqlValueView;

    open spec fn view(&self) -> SqlValueView {
        match self {
            SqlValue::Integer(i) => SqlValueView::Integer(*i as int),
            SqlValue::Text(s) => SqlValueView::Text(s@),
            SqlValue::Null => SqlValueView::Null,
        }
    }
}

/// The beginnings of the texts reported for a statement: when it ran, when it
/// failed, and when the database could not be opened. The number that follows
/// is the count of changed rows, or SQLite's extended error code.
pub struct Messages {
    pub done: &'static str,
    pub failed: &'static str,
    pub connect_failed: &'static str,
}

pub struct MessagesView {
    pub done: Seq<char>,
    pub failed: Seq<char>,
    pub connect_failed: Seq<char>,
}

impl View for Messages {
    type V = MessagesView;

    open spec fn view(&self) -> MessagesView {
        MessagesView { done: self.done@, failed: self.failed@, connect_failed: self.connect_failed@ }
    }
}

/// A statement that changes the database, with its bound values and its
/// report texts.
pub struct SqlCommand {
    pub sql: &'static str,
    pub params: Vec<SqlValue>,
    pub messages: Messages,
}

pub struct SqlCommandView {
    pub sql: Seq<char>,
    pub params: Seq<SqlValueView>,
    pub messages: MessagesView,
}

impl View for SqlCommand {
    type V = SqlCommandView;

    open spec fn view(&self) -> SqlCommandView {
        SqlCommandView {
            sql: self.sql@,
            params: self.params@.map_values(|v: SqlValue| v@),
            messages: self.messages@,
        }
    }
}

/// A statement that reads rows, with its bound values.
pub struct SqlQuery {
    pub sql: &'static str,
    pub params: Vec<SqlValue>,
}

pub struct SqlQueryView {
    pub sql: Seq<char>,
    pub params: Seq<SqlValueView>,
}

impl View for SqlQuery {
    type V = SqlQueryView;

    open spec fn view(&self) -> SqlQueryView {
        SqlQueryView { sql: self.sql@, params: self.params@.map_values(|v: SqlValue| v@) }
    }
}

/// What the database answered to a statement.
#[derive(Clone, Copy, Debug, PartialEq, Eq, Structural)]
pub enum Outcome {
    /// The statement ran and changed this many rows.
    Done(usize),
    /// The statement failed with this SQLite extended error code.
    Failed(i32),
    /// The database file could not be opened; SQLite's extended error code.
    ConnectFailed(i32),
}

pub const TABLE_CREATED: &'static str = "table create ";
pub const TABLE_CREATE_FAILED: &'static str = "table create fail ";
pub const CONNECT_FAILED: &'static str = "connect fail ";
pub const CONNECT_FAILED_CAPITAL: &'static str = "Connect fail ";
pub const INSERT_DONE: &'static str = "Insert into completed ";
pub const UPDATE_DONE: &'static str = "Update into completed ";
pub const INSERT_FAILED: &'static str = "insert fail ";
pub const DELETE_FAILED: &'static str = "delete fail ";
pub const UPDATE_FAILED: &'static str = "update fail ";

/// The text reported for an outcome: the success text and the row count, or
/// the failure text and the error code.
pub open spec fn report_text(m: MessagesView, o: Outcome) -> Result<Seq<char>, Seq<char>> {
    match o {
        Outcome::Done(n) => Ok(m.done + decimal(n as nat)),
        Outcome::Failed(code) => Err(m.failed + signed_decimal(code as int)),
        Outcome::ConnectFailed(code) => Err(m.connect_failed + signed_decimal(code as int)),
    }
}

/// A result of texts, by the texts' views.
pub open spec fn text_result(r: Result<String, String>) -> Result<Seq<char>, Seq<char>> {
    match r {
        Ok(s) => Ok(s@),
        Err(e) => Err(e@),
    }
}

/// The report of a statement once the database has answered: `Ok` exactly
/// when the statement ran.
pub fn report(messages: &Messages, outcome: Outcome) -> (r: Result<String, String>)
    ensures
        text_result(r) == report_text(messages@, outcome),
        r is Ok <==> outcome is Done,
{
    match outcome {
        Outcome::Done(n) => {
            let mut s = String::from_str(messages.done);
            let digits = u64_to_text(n as u64);
            s.append(digits.as_str());
            Ok(s)
        },
        Outcome::Failed(code) => {
            let mut s = String::from_str(messages.failed);
            let digits = i64_to_text(code as i64);
            s.append(digits.as_str());
            Err(s)
        },
        Outcome::ConnectFailed(code) => {
            let mut s = String::from_str(messages.connect_failed);
            let digits = i64_to_text(code as i64);
            s.append(digits.as_str());
            Err(s)
        },
    }
}

/// The report texts of a statement that creates a table, with the given text
/// for a database that could not be opened.
pub fn create_messages(connect_failed: &'static str) -> (m: Messages)
    ensures
        m@ == (MessagesView {
            done: TABLE_CREATED@,
            failed: TABLE_CREATE_FAILED@,
            connect_failed: connect_failed@,
        }),
{
    Messages { done: TABLE_CREATED, failed: TABLE_CREATE_FAILED, connect_failed }
}

/// The report texts of a statement that changes rows.
pub fn change_messages(done: &'static str, failed: &'static str) -> (m: Messages)
    ensures
        m@ == (MessagesView { done: done@, failed: failed@, connect_failed: CONNECT_FAILED@ }),
{
    Messages { done, failed, connect_failed: CONNECT_FAILED }
}

/// A row read from a query, and the record it stands for.
pub trait RowRecord: Sized {
    type Record: View;

    /// The view of the row's record, or nothing when one of its date columns
    /// holds a text that does not read as a date.
    spec fn spec_record(&self) -> Option<<Self::Record as View>::V>;

    fn record(&self) -> (r: Option<Self::Record>)
        ensures
            match r {
                Some(x) => self.spec_record() == Some(x@),
                None => self.spec_record() is None,
            },
    ;
}

/// The records of all rows, in the rows' order: the records when every row has
/// one, and nothing when some row has none.
pub open spec fn records_spec<R: RowRecord>(rows: Seq<R>) -> Option<
    Seq<<R::Record as View>::V>,
> {
    if forall|i: int| 0 <= i < rows.len() ==> (#[trigger] rows[i].spec_record()) is Some {
        Some(Seq::new(rows.len(), |i: int| rows[i].spec_record()->0))
    } else {
        None
    }
}

/// The views of a sequence of records.
pub open spec fn views<T: View>(s: Seq<T>) -> Seq<T::V> {
    s.map_values(|x: T| x@)
}

/// The records of the rows a query returned, in the same order; nothing when
/// some row does not make a record.
pub fn records_from_rows<R: RowRecord>(rows: &Vec<R>) -> (r: Option<Vec<R::Record>>)
    ensures
        match r {
            Some(v) => records_spec(rows@) == Some(views(v@)),
            None => records_spec(rows@) is None,
        },
{
    let mut out: Vec<R::Record> = Vec::new();
    let n = rows.len();
    for i in 0..n
        invariant
            n == rows@.len(),
            out@.len() == i,
            forall|j: int| 0 <= j < i ==> (#[trigger] rows@[j].spec_record()) == Some(out@[j]@),
    {
        match rows[i].record() {
            Some(rec) => {
                out.push(rec);
            },
            None => {
                assert(rows@[i as int].spec_record() is None);
                return None;
            },
        }
    }
    assert(records_spec(rows@) == Some(views(out@))) by {
        assert(forall|j: int| 0 <= j < rows@.len() ==> (#[trigger] rows@[j].spec_record()) is Some);
        assert(Seq::new(rows@.len(), |j: int| rows@[j].spec_record()->0) =~= views(out@));
    }
    Some(out)
}

/// The records of rows are, one for one and in order, the rows' records; when
/// there are none, some row makes no record.
pub proof fn lemma_records_spec_elements<R: RowRecord>(rows: Seq<R>)
    ensures
        records_spec(rows) matches Some(v) ==> v.len() == rows.len() && forall|i: int|
            0 <= i < rows.len() ==> rows[i].spec_record() == Some(#[trigger] v[i]),
        records_spec(rows) is None ==> exists|i: int|
            0 <= i < rows.len() && (#[trigger] rows[i].spec_record()) is None,
{
}

} // verus!
