use crate::data::category_lite::{CategoryLite, CategoryView};
use crate::dates::DateTimeParts;
use crate::text::{decimal, lemma_parse_reads_back_decimal, parse_u32, u64_to_text};
use crate::view::dialog_alert::{save_key, SaveKey, CREATE_BODY, UPDATE_BODY};
use vstd::prelude::*;

verus! {

/// What saving the category form does.
pub enum CategorySave {
    /// Adds this new category.
    Insert(CategoryLite),
    /// Writes this category over the stored one with the same key.
    Update(CategoryLite),
    /// Nothing: the key field holds a text that is not a key.
    Ignore,
}

/// Saving the category form: an empty key field adds a new category, a key
/// writes the form over that category with `now` as both of its dates, and any
/// other text in the key field does nothing.
pub fn save_category(id_text: &str, name: String, description: String, now: DateTimeParts) -> (s:
    CategorySave)
    ensures
        match save_key(id_text@) {
            SaveKey::New => s matches CategorySave::Insert(c) && c@ == (CategoryView {
                id: 0,
                name: name@,
                description: description@,
                date_created: None,
                date_updated: None,
            }),
            SaveKey::Existing(k) => s matches CategorySave::Update(c) && c@ == (CategoryView {
                id: k,
                name: name@,
                description: description@,
                date_created: Some(now),
                date_updated: Some(now),
            }),
            SaveKey::Unreadable => s is Ignore,
        },
{
    if id_text.unicode_len() == 0 {
        CategorySave::Insert(CategoryLite::new(name, description))
    } else {
        match parse_u32(id_text) {
            Some(id) => CategorySave::Update(CategoryLite::data_new(id, name, description, now, now)),
            None => CategorySave::Ignore,
        }
    }
}

/// The body of the confirmation dialog of a save.
pub fn save_body(s: &CategorySave) -> (body: &'static str)
    ensures
        s is Insert ==> body@ == CREATE_BODY@,
        s is Update ==> body@ == UPDATE_BODY@,
{
    match s {
        CategorySave::Update(_) => UPDATE_BODY,
        _ => CREATE_BODY,
    }
}

/// The texts that the edit button writes into the form.
pub struct CategoryForm {
    pub id: String,
    pub name: String,
    pub description: String,
}

/// The form of a category being edited: its key in decimal, its name and its
/// description.
pub fn edit_form(c: &CategoryLite) -> (f: CategoryForm)
    ensures
        f.id@ == decimal(c.id as nat),
        f.name@ == c.name@,
        f.description@ == c.description@,
{
    CategoryForm { id: u64_to_text(c.id as u64), name: c.name.clone(), description: c.description.clone() }
}

/// Editing a category and saving the form writes over that same category: the
/// key that the edit button writes into the form reads back as the category's
/// key.
pub proof fn lemma_edit_then_save_updates_same_category(c: CategoryLite, f: CategoryForm)
    requires
        f.id@ == decimal(c.id as nat),
    ensures
        save_key(f.id@) == SaveKey::Existing(c.id),
{
    lemma_parse_reads_back_decimal(c.id);
    let s = decimal(c.id as nat);
    assert(s.len() > 0) by {
        if c.id < 10 {
        } else {
            assert(s == decimal((c.id / 10) as nat).push(crate::text::digit_char((c.id % 10) as nat)));
        }
    }
}

} // verus!
