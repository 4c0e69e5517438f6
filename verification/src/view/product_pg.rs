use crate::data::product_lite::{ProductLite, ProductView};
use crate::sql::text_result;
use crate::view::dialog_alert::{CREATE_BODY, UPDATE_BODY};
use vstd::prelude::*;

verus! {

pub const DB_MESSAGE_PREFIX: &'static str = "DB messenger : ";

pub const DB_FAILURE_PREFIX: &'static str = "DB messenger Fail: ";

/// What saving the product form does.
pub enum ProductSave {
    /// Adds this new product.
    Insert(ProductLite),
    /// Writes this product over the stored one with the same barcode.
    Update(ProductLite),
    /// Nothing: the barcode field is empty.
    Ignore,
}

/// Saving the product form: nothing without a barcode; otherwise the form's
/// product in the chosen category, written over the stored one when the form
/// was opened by the edit button and added when it was opened to add.
pub fn save_product(
    barcode: String,
    name: String,
    description: String,
    category_id: u32,
    editing: bool,
) -> (s: ProductSave)
    ensures
        barcode@.len() == 0 ==> s is Ignore,
        barcode@.len() > 0 && editing ==> (s matches ProductSave::Update(p) && p@ == (ProductView {
            barcode: barcode@,
            name: name@,
            description: description@,
            categoryid: category_id,
            date_created: None,
            date_updated: None,
        })),
        barcode@.len() > 0 && !editing ==> (s matches ProductSave::Insert(p) && p@ == (ProductView {
            barcode: barcode@,
            name: name@,
            description: description@,
            categoryid: category_id,
            date_created: None,
            date_updated: None,
        })),
{
    if barcode.as_str().unicode_len() == 0 {
        return ProductSave::Ignore;
    }
    let p = ProductLite::new(barcode, name, description, category_id);
    if editing {
        ProductSave::Update(p)
    } else {
        ProductSave::Insert(p)
    }
}

/// The body of the confirmation dialog of a save.
pub fn save_body(editing: bool) -> (body: &'static str)
    ensures
        editing ==> body@ == UPDATE_BODY@,
        !editing ==> body@ == CREATE_BODY@,
{
    if editing {
        UPDATE_BODY
    } else {
        CREATE_BODY
    }
}

/// What follows a confirmed save once the database has answered.
pub struct SaveFollowUp {
    /// The form is hidden.
    pub hide_form: bool,
    /// The form's fields are emptied and the list is read again.
    pub clear_form: bool,
    /// The text written to the log.
    pub log: String,
}

/// After a save: on success the form is emptied (and hidden after an edit) and
/// the database's text logged; on failure only the failure is logged.
pub fn save_follow_up(editing: bool, result: &Result<String, String>) -> (f: SaveFollowUp)
    ensures
        match text_result(*result) {
            Ok(m) => f.hide_form == editing && f.clear_form && f.log@ == DB_MESSAGE_PREFIX@ + m,
            Err(e) => !f.hide_form && !f.clear_form && f.log@ == DB_FAILURE_PREFIX@ + e,
        },
{
    match result {
        Ok(m) => {
            let mut log = String::from_str(DB_MESSAGE_PREFIX);
            log.append(m.as_str());
            SaveFollowUp { hide_form: editing, clear_form: true, log }
        },
        Err(e) => {
            let mut log = String::from_str(DB_FAILURE_PREFIX);
            log.append(e.as_str());
            SaveFollowUp { hide_form: false, clear_form: false, log }
        },
    }
}

/// The position of the first category of the choice list with key `target`.
pub fn find_category_index(ids: &Vec<u32>, target: u32) -> (r: Option<u32>)
    requires
        ids@.len() <= u32::MAX,
    ensures
        match r {
            Some(i) => i < ids@.len() && ids@[i as int] == target && forall|j: int|
                0 <= j < i ==> ids@[j] != target,
            None => forall|j: int| 0 <= j < ids@.len() ==> ids@[j] != target,
        },
{
    let n = ids.len();
    let mut i: usize = 0;
    while i < n
        invariant
            n == ids@.len(),
            n <= u32::MAX,
            i <= n,
            forall|j: int| 0 <= j < i ==> ids@[j] != target,
        decreases n - i,
    {
        if ids[i] == target {
            return Some(i as u32);
        }
        i = i + 1;
    }
    None
}

} // verus!
