//! User-interface components.

pub mod user_attributes_table;
