pub mod add_product_query;
pub mod get_product_by_id_query;
