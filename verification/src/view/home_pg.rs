use crate::data::category_lite::{self, CategoryLite};
use crate::data::inventory_det_lite::{self, InventoryDetLite};
use crate::data::inventory_lite::{self, single_row, InventoryLite, STATUS_CLOSED, STATUS_OPEN};
use crate::data::product_lite::{self, ProductLite};
use crate::model::DataConext;
use crate::sql::SqlCommand;
use crate::model::CreateLiteExt;
use crate::sql::text_result;
use crate::text::{decimal, u64_to_text};
use vstd::prelude::*;

verus! {

pub const CLOSED_NOTICE: &'static str = "status closed dont change this";

pub const UNKNOWN_OPTION_NOTICE: &'static str = "this option dont found";

pub const OPEN_FIRST_PREFIX: &'static str = "open inventory first closed ";

pub const STATUS_PREFIX: &'static str = "status ";

pub const IS_CLOSED_SUFFIX: &'static str = " is closed";

pub const NO_INFO_SUFFIX: &'static str = " no exist info.";

pub const UPDATE_PREFIX: &'static str = "update ";

pub const UPDATE_FAIL_NOTICE: &'static str = "update fail";

pub const ICON_CLOSED: &'static str = "changes-prevent-symbolic";

pub const ICON_OPEN: &'static str = "changes-allow-symbolic";

pub const TOOLTIP_CLOSED: &'static str = "Closed";

pub const TOOLTIP_OPEN: &'static str = "Open";

/// What pressing the detail button on an inventory of the list does: the body
/// of the dialog it shows, and the inventory whose lines it opens, if any.
pub struct DetailStep {
    pub body: &'static str,
    pub open: Option<u32>,
}

/// Only an open inventory shows its lines; a closed one, or one with another
/// status, shows a notice instead.
pub fn show_detail(id: u32, status: u8) -> (d: DetailStep)
    ensures
        status == STATUS_OPEN ==> d.open == Some(id) && d.body@ == ""@,
        status == STATUS_CLOSED ==> d.open is None && d.body@ == CLOSED_NOTICE@,
        status != STATUS_OPEN && status != STATUS_CLOSED ==> d.open is None && d.body@
            == UNKNOWN_OPTION_NOTICE@,
{
    if status == STATUS_CLOSED {
        DetailStep { body: CLOSED_NOTICE, open: None }
    } else if status == STATUS_OPEN {
        DetailStep { body: "", open: Some(id) }
    } else {
        DetailStep { body: UNKNOWN_OPTION_NOTICE, open: None }
    }
}

/// What pressing the add button on the inventory list does.
pub enum AddInventory {
    /// An inventory is open already: nothing is added; the text is logged.
    AlreadyOpen(String),
    /// No inventory is open: this new, open inventory is added.
    Create(InventoryLite),
}

/// Adding an inventory, given the answer to "is an inventory open?"
/// (`InventoryLite::get_filter`): refused while one is open.
pub fn add_inventory(open_found: Option<u8>) -> (a: AddInventory)
    ensures
        match open_found {
            Some(v) => a matches AddInventory::AlreadyOpen(msg) && msg@ == OPEN_FIRST_PREFIX@
                + decimal(v as nat),
            None => a == AddInventory::Create(
                InventoryLite { id: 0, statusid: STATUS_OPEN, date_created: None, date_updated: None },
            ),
        },
{
    match open_found {
        Some(v) => {
            let mut msg = String::from_str(OPEN_FIRST_PREFIX);
            let digits = u64_to_text(v as u64);
            msg.append(digits.as_str());
            AddInventory::AlreadyOpen(msg)
        },
        None => AddInventory::Create(InventoryLite::new()),
    }
}

/// What pressing the close button on an inventory of the list does.
pub enum CloseStep {
    /// Shows this text and changes nothing.
    Notice(String),
    /// Writes this record, which closes the inventory.
    Update(InventoryLite),
}

/// Closing an inventory: only an open one is closed.
pub fn close_inventory(id: u32, status: u8) -> (c: CloseStep)
    ensures
        status == STATUS_OPEN ==> c == CloseStep::Update(
            InventoryLite { id, statusid: STATUS_CLOSED, date_created: None, date_updated: None },
        ),
        status == STATUS_CLOSED ==> (c matches CloseStep::Notice(t) && t@ == STATUS_PREFIX@
            + decimal(status as nat) + IS_CLOSED_SUFFIX@),
        status != STATUS_OPEN && status != STATUS_CLOSED ==> (c matches CloseStep::Notice(t) && t@
            == STATUS_PREFIX@ + decimal(status as nat) + NO_INFO_SUFFIX@),
{
    if status == STATUS_OPEN {
        CloseStep::Update(InventoryLite::upd(id))
    } else {
        let mut t = String::from_str(STATUS_PREFIX);
        let digits = u64_to_text(status as u64);
        t.append(digits.as_str());
        if status == STATUS_CLOSED {
            t.append(IS_CLOSED_SUFFIX);
        } else {
            t.append(NO_INFO_SUFFIX);
        }
        CloseStep::Notice(t)
    }
}

/// The dialog text once the closing update has run, and whether the list is
/// read again (only when the update went through).
pub fn close_report(result: &Result<String, String>) -> (r: (String, bool))
    ensures
        match text_result(*result) {
            Ok(m) => r.0@ == UPDATE_PREFIX@ + m && r.1,
            Err(_) => r.0@ == UPDATE_FAIL_NOTICE@ && !r.1,
        },
{
    match result {
        Ok(m) => {
            let mut t = String::from_str(UPDATE_PREFIX);
            t.append(m.as_str());
            (t, true)
        },
        Err(_) => (String::from_str(UPDATE_FAIL_NOTICE), false),
    }
}

/// The icon shown for an inventory's status, and its tooltip.
pub fn status_icon(status: u8) -> (r: (&'static str, Option<&'static str>))
    ensures
        status == STATUS_CLOSED ==> r.0@ == ICON_CLOSED@ && r.1 == Some(TOOLTIP_CLOSED),
        status == STATUS_OPEN ==> r.0@ == ICON_OPEN@ && r.1 == Some(TOOLTIP_OPEN),
        status != STATUS_OPEN && status != STATUS_CLOSED ==> r.0@ == ICON_OPEN@ && r.1 is None,
{
    if status == STATUS_CLOSED {
        (ICON_CLOSED, Some(TOOLTIP_CLOSED))
    } else if status == STATUS_OPEN {
        (ICON_OPEN, Some(TOOLTIP_OPEN))
    } else {
        (ICON_OPEN, None)
    }
}

/// The number of open inventories among the statuses of the `Inventory` table.
pub open spec fn open_count(statuses: Seq<u8>) -> nat
    decreases statuses.len(),
{
    if statuses.len() == 0 {
        0
    } else {
        open_count(statuses.drop_last()) + if statuses.last() == STATUS_OPEN {
            1nat
        } else {
            0nat
        }
    }
}

/// The rows that `SELECT_OPEN_SQL` returns on a table with these statuses:
/// a single 1 when some inventory is open, none otherwise.
pub open spec fn open_query_rows(statuses: Seq<u8>) -> Seq<u8> {
    if open_count(statuses) > 0 {
        seq![1u8]
    } else {
        seq![]
    }
}

proof fn lemma_open_count_update(s: Seq<u8>, i: int, v: u8)
    requires
        0 <= i < s.len(),
    ensures
        open_count(s.update(i, v)) + (if s[i] == STATUS_OPEN { 1nat } else { 0nat }) == open_count(s)
            + (if v == STATUS_OPEN { 1nat } else { 0nat }),
    decreases s.len(),
{
    let t = s.update(i, v);
    if i == s.len() - 1 {
        assert(t.drop_last() =~= s.drop_last());
    } else {
        lemma_open_count_update(s.drop_last(), i, v);
        assert(t.drop_last() =~= s.drop_last().update(i, v));
    }
}

/// At most one inventory is open at a time. Starting from a table with at most
/// one open inventory: the inventory that the add button creates from the
/// answer of the open-inventory query is added only when none is open, so at
/// most one is open after it; and closing an inventory (writing the record of
/// `CreateLiteExt::upd`) never opens one.
pub proof fn lemma_at_most_one_open_inventory(statuses: Seq<u8>, add: AddInventory, i: int)
    requires
        open_count(statuses) <= 1,
        single_row(open_query_rows(statuses)) is Some ==> add is AlreadyOpen,
        single_row(open_query_rows(statuses)) is None ==> add == AddInventory::Create(
            InventoryLite { id: 0, statusid: STATUS_OPEN, date_created: None, date_updated: None },
        ),
    ensures
        add matches AddInventory::Create(rec) ==> open_count(statuses.push(rec.statusid)) <= 1,
        0 <= i < statuses.len() ==> open_count(statuses.update(i, STATUS_CLOSED)) <= 1,
{
    if let AddInventory::Create(rec) = add {
        let t = statuses.push(rec.statusid);
        assert(t.drop_last() =~= statuses);
        assert(open_count(statuses) == 0);
    }
    if 0 <= i < statuses.len() {
        lemma_open_count_update(statuses, i, STATUS_CLOSED);
    }
}

/// The statements run when the program starts: each table is created when
/// missing, categories first, then products, inventories and their lines.
pub fn table_commands() -> (v: Vec<SqlCommand>)
    ensures
        v@.len() == 4,
        v@[0]@ == category_lite::create_command(),
        v@[1]@ == product_lite::create_command(),
        v@[2]@ == inventory_lite::create_command(),
        v@[3]@ == inventory_det_lite::create_command(),
{
    let mut v: Vec<SqlCommand> = Vec::new();
    v.push(CategoryLite::empty().create());
    v.push(ProductLite::empty().create());
    v.push(InventoryLite::empty().create());
    v.push(InventoryDetLite::empty().create());
    v
}

} // verus!
