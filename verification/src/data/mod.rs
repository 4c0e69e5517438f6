//! The stored records: categories, products, inventories and inventory lines.
pub mod category_lite;
pub mod inventory_det_lite;
pub mod inventory_lite;
pub mod product_lite;
