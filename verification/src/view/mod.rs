//! The decisions of the program's pages: what a button press does with the
//! values on the page, what a confirmation dialog shows, and how a record is
//! written into a form and read back from it.
pub mod category_pg;
pub mod dialog_alert;
pub mod home_pg;
pub mod product_pg;
pub mod inventory_pg;
pub mod navigation;
