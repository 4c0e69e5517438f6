use crate::text::{parse_u32_spec, same_text};
use vstd::prelude::*;

verus! {

/// The title of every confirmation dialog.
pub const CONFIRM_TITLE: &'static str = "Do you want to do this?";

/// The title of the dialogs of the inventory list.
pub const CHOICE_TITLE: &'static str = "What do you do?";

pub const CREATE_BODY: &'static str = "If you create data";

pub const UPDATE_BODY: &'static str = "If you update data";

pub const DELETE_BODY: &'static str = "If you delete data";

/// The identifier of the response that declines.
pub const CANCEL_RESPONSE: &'static str = "cancel";

pub const CANCEL_LABEL: &'static str = "Cancel";

/// The identifier of the response that confirms.
pub const ACCEPT_RESPONSE: &'static str = "accept";

pub const ACCEPT_LABEL: &'static str = "Accept";

/// Whether a dialog's response is the one that confirms.
pub fn is_accept(response: &str) -> (r: bool)
    ensures
        r == (response@ == ACCEPT_RESPONSE@),
{
    same_text(response, ACCEPT_RESPONSE)
}

/// How the key field of a form is read when the form is saved.
pub enum SaveKey {
    /// The field is empty: the form holds a new record.
    New,
    /// The field holds this key: the form holds a stored record.
    Existing(u32),
    /// The field holds a text that is not a key.
    Unreadable,
}

pub open spec fn save_key(id_text: Seq<char>) -> SaveKey {
    if id_text.len() == 0 {
        SaveKey::New
    } else {
        match parse_u32_spec(id_text) {
            Some(k) => SaveKey::Existing(k),
            None => SaveKey::Unreadable,
        }
    }
}

} // verus!
