use crate::data::inventory_det_lite::{InventoryDetLite, InventoryDetView};
use crate::dates::{date_from_ymd, valid_ymd, DateParts};
use crate::model::{CreateLiteExt, QueryFilterContext};
use crate::sql::{SqlQuery, SqlQueryView, SqlValueView};
use crate::data::inventory_det_lite::SELECT_OF_INVENTORY_SQL;
use crate::text::{decimal, lemma_parse_reads_back_decimal, parse_u32, parse_u32_spec, u64_to_text};
use crate::view::dialog_alert::{save_key, SaveKey};
use vstd::prelude::*;

verus! {

pub const TITLE_PREFIX: &'static str = "Datail Inventory # ";

/// The title of the page of an inventory's lines.
pub fn detail_title(id: u32) -> (s: String)
    ensures
        s@ == TITLE_PREFIX@ + decimal(id as nat),
{
    let mut s = String::from_str(TITLE_PREFIX);
    let digits = u64_to_text(id as u64);
    s.append(digits.as_str());
    s
}

/// The query that reads the lines of inventory `inv_id`: the empty line with
/// that inventory's key, asked for its filter query.
pub fn lines_query(inv_id: u32) -> (q: SqlQuery)
    ensures
        q@ == (SqlQueryView {
            sql: SELECT_OF_INVENTORY_SQL@,
            params: seq![SqlValueView::Integer(inv_id as int)],
        }),
{
    let mut line = InventoryDetLite::empty();
    line.inv_id = inv_id;
    line.get_filter_query()
}

/// The position that a choice list of `n_items` entries selects for a code:
/// the first position whose number, cut to a byte, is the code.
pub open spec fn combo_position(n_items: u32, code: u8) -> Option<u32> {
    if (code as u32) < n_items {
        Some(code as u32)
    } else {
        None
    }
}

/// The entry of a choice list (box kind or status) that shows a stored code:
/// the positions are tried in order and the first whose number, as a byte,
/// equals the code is chosen.
pub fn combo_index(n_items: u32, code: u8) -> (r: Option<u32>)
    ensures
        r == combo_position(n_items, code),
{
    let mut idx: u32 = 0;
    while idx < n_items
        invariant
            idx <= n_items,
            idx <= code as u32,
        decreases n_items - idx,
    {
        let cut: u8 = idx as u8;
        assert(cut == idx) by (bit_vector)
            requires
                idx <= 255,
                cut == idx as u8,
        ;
        if cut == code {
            return Some(idx);
        }
        idx = idx + 1;
    }
    None
}

/// A number field as the save button reads it: its number, or 0 when it holds
/// no number.
pub open spec fn number_or_zero(text: Seq<char>) -> u32 {
    match parse_u32_spec(text) {
        Some(v) => v,
        None => 0,
    }
}

fn read_number_or_zero(text: &str) -> (v: u32)
    ensures
        v == number_or_zero(text@),
{
    match parse_u32(text) {
        Some(v) => v,
        None => 0,
    }
}

/// The expiry date that the calendar's year, month and day make, when they
/// make a day of chrono's calendar.
pub open spec fn calendar_day(year: i32, month: i32, day: i32) -> Option<DateParts> {
    if valid_ymd(year as int, (month as u32) as int, (day as u32) as int) {
        Some(DateParts { year, month: month as u32, day: day as u32 })
    } else {
        None
    }
}

/// The line that the form describes, with the given key.
pub open spec fn form_line(
    key: u32,
    inv_text: Seq<char>,
    barcode: Seq<char>,
    stock_text: Seq<char>,
    box_selected: u32,
    status_selected: u32,
    date: Option<DateParts>,
) -> InventoryDetView {
    InventoryDetView {
        id_ivt_det: key,
        inv_id: number_or_zero(inv_text),
        barcode,
        box_id: box_selected as u8,
        stock: number_or_zero(stock_text),
        status_id: status_selected as u8,
        date_expiration: date,
        date_created: None,
        date_updated: None,
    }
}

/// What saving the line form does.
pub enum LineSave {
    /// Adds this new line.
    Insert(InventoryDetLite),
    /// Writes this line over the stored one with the same key.
    Update(InventoryDetLite),
}

/// Saving the line form. The inventory key and the stock are read as numbers
/// (0 when they hold none), the box kind and the status are the positions
/// selected in their lists cut to a byte, and the expiry date is the calendar's
/// day. An empty key field adds the line; a key writes it over that line.
pub fn save_line(
    id_text: &str,
    inv_text: &str,
    barcode: String,
    stock_text: &str,
    box_selected: u32,
    status_selected: u32,
    cal_year: i32,
    cal_month: i32,
    cal_day: i32,
) -> (s: LineSave)
    requires
        !(save_key(id_text@) is Unreadable),
    ensures
        match save_key(id_text@) {
            SaveKey::Existing(k) => s matches LineSave::Update(l) && l@ == form_line(
                k,
                inv_text@,
                barcode@,
                stock_text@,
                box_selected,
                status_selected,
                calendar_day(cal_year, cal_month, cal_day),
            ),
            _ => s matches LineSave::Insert(l) && l@ == form_line(
                0,
                inv_text@,
                barcode@,
                stock_text@,
                box_selected,
                status_selected,
                calendar_day(cal_year, cal_month, cal_day),
            ),
        },
{
    let inv_id = read_number_or_zero(inv_text);
    let box_id: u8 = box_selected as u8;
    let stock = read_number_or_zero(stock_text);
    let status_id: u8 = status_selected as u8;
    let date = date_from_ymd(cal_year, cal_month as u32, cal_day as u32);
    let mut line = InventoryDetLite::new(inv_id, barcode, stock, status_id, box_id, date);
    if id_text.unicode_len() == 0 {
        LineSave::Insert(line)
    } else {
        match parse_u32(id_text) {
            Some(k) => {
                line.id_ivt_det = k;
                LineSave::Update(line)
            },
            None => LineSave::Insert(line),
        }
    }
}

/// The values that the edit button writes into the line form.
pub struct LineForm {
    pub id: String,
    pub inv_id: String,
    pub barcode: String,
    pub stock: String,
    /// The box kind to select, when the list has an entry for it.
    pub box_index: Option<u32>,
    /// The status to select, when the list has an entry for it.
    pub status_index: Option<u32>,
    /// The day to select in the calendar, when the line has an expiry date.
    pub date: Option<DateParts>,
}

/// The form of a line being edited: its keys and stock in decimal, its barcode,
/// the entries of the box and status lists that show its codes, and its expiry
/// date.
pub fn edit_line_form(line: &InventoryDetLite, box_items: u32, status_items: u32) -> (f: LineForm)
    ensures
        f.id@ == decimal(line.id_ivt_det as nat),
        f.inv_id@ == decimal(line.inv_id as nat),
        f.barcode@ == line.barcode@,
        f.stock@ == decimal(line.stock as nat),
        f.box_index == combo_position(box_items, line.box_id),
        f.status_index == combo_position(status_items, line.status_id),
        f.date == line.date_expiration,
{
    LineForm {
        id: u64_to_text(line.id_ivt_det as u64),
        inv_id: u64_to_text(line.inv_id as u64),
        barcode: line.barcode.clone(),
        stock: u64_to_text(line.stock as u64),
        box_index: combo_index(box_items, line.box_id),
        status_index: combo_index(status_items, line.status_id),
        date: line.date_expiration,
    }
}

/// Editing a line and saving the form unchanged writes the same line back:
/// same key, inventory, barcode, box kind, stock, status and expiry date. This
/// holds when the box and status lists have entries for the line's codes and
/// the line has an expiry date (otherwise the edit button leaves the list or
/// the calendar as it was).
pub proof fn lemma_edit_then_save_keeps_line(
    line: InventoryDetView,
    f_id: Seq<char>,
    f_inv: Seq<char>,
    f_stock: Seq<char>,
    box_items: u32,
    box_selected: u32,
    status_items: u32,
    status_selected: u32,
    d: DateParts,
)
    requires
        f_id == decimal(line.id_ivt_det as nat),
        f_inv == decimal(line.inv_id as nat),
        f_stock == decimal(line.stock as nat),
        combo_position(box_items, line.box_id) == Some(box_selected),
        combo_position(status_items, line.status_id) == Some(status_selected),
        line.date_expiration == Some(d),
        d.valid(),
    ensures
        save_key(f_id) == SaveKey::Existing(line.id_ivt_det),
        form_line(
            line.id_ivt_det,
            f_inv,
            line.barcode,
            f_stock,
            box_selected,
            status_selected,
            calendar_day(d.year, d.month as i32, d.day as i32),
        ) == (InventoryDetView { date_created: None, date_updated: None, ..line }),
{
    lemma_parse_reads_back_decimal(line.id_ivt_det);
    lemma_parse_reads_back_decimal(line.inv_id);
    lemma_parse_reads_back_decimal(line.stock);
    assert(f_id.len() > 0);
    let b = line.box_id;
    let st = line.status_id;
    assert((b as u32) as u8 == b) by (bit_vector);
    assert((st as u32) as u8 == st) by (bit_vector);
    assert((d.month as i32) as u32 == d.month);
    assert((d.day as i32) as u32 == d.day);
}

} // verus!
