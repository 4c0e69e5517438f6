//! Record keeping for a small product-expiry inventory: categories, products,
//! inventories and their detail lines, the SQL each record issues, the way query
//! rows become records, and the decisions taken by the pages of the program.
pub mod text;
pub mod dates;
pub mod sql;
pub mod model;
pub mod data;
pub mod view;
