pub mod attribute;
pub mod decimal;
pub mod product;
