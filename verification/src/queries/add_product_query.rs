use vstd::prelude::*;
use crate::error::{Error, ErrorView};
use crate::models::attribute::{Item, ItemView};
use crate::models::product::{to_item, Product};
use crate::queries::get_product_by_id_query::TABLE_NAME;

verus! {

/// The call that writes one item to a table, in place of any item with the
/// same key.
#[derive(Debug, Clone, PartialEq, Eq)]
pub struct PutItem {
    /// The table to write to.
    pub table_name: String,
    /// The item to write.
    pub item: Item,
}

/// The mathematical model of a [`PutItem`].
pub struct PutItemView {
    pub table_name: Seq<char>,
    pub item: ItemView,
}

impl View for PutItem {
    type V = PutItemView;

    open spec fn view(&self) -> PutItemView {
        PutItemView { table_name: self.table_name@, item: self.item@ }
    }
}

/// The model of what a service answered to a call that returns nothing: that
/// it succeeded, or the message of its failure.
pub open spec fn done_view(done: Result<(), String>) -> Result<(), Seq<char>> {
    match done {
        Ok(()) => Ok(()),
        Err(message) => Err(message@),
    }
}

/// The model of the outcome of a step that returns nothing.
pub open spec fn outcome_view(r: Result<(), Error>) -> Result<(), ErrorView> {
    match r {
        Ok(()) => Ok(()),
        Err(e) => Err(e@),
    }
}

/// What a write gives for an answer of the table: a failure of the table is
/// a store error.
pub open spec fn stored(done: Result<(), Seq<char>>) -> Result<(), ErrorView> {
    match done {
        Ok(()) => Ok(()),
        Err(message) => Err(ErrorView::StoreError(message)),
    }
}

/// The gateway that writes a product to the table.
#[derive(Debug)]
pub struct AddProduct {
    table_name: String,
}

impl View for AddProduct {
    type V = Seq<char>;

    /// The name of the table that the gateway writes to.
    closed spec fn view(&self) -> Seq<char> {
        self.table_name@
    }
}

impl AddProduct {
    /// The gateway for the table that the setting names. Without the setting
    /// there is none.
    pub fn new(table_name: Option<String>) -> (r: Result<AddProduct, Error>)
        ensures
            match r {
                Ok(gateway) => table_name matches Some(name) && gateway@ == name@,
                Err(e) => table_name is None && e@ == ErrorView::ConfigError(TABLE_NAME@),
            },
    {
        match table_name {
            Some(table_name) => Ok(AddProduct { table_name }),
            None => Err(Error::ConfigError(TABLE_NAME.to_owned())),
        }
    }

    /// The call that writes `product`, whole, under its identifier.
    pub fn request(&self, product: &Product) -> (call: PutItem)
        ensures
            call@ == (PutItemView { table_name: self@, item: to_item(product@) }),
    {
        PutItem { table_name: self.table_name.clone(), item: product.to_dynamodb() }
    }

    /// The outcome of the write that the table's answer tells of.
    pub fn response(done: Result<(), String>) -> (r: Result<(), Error>)
        ensures
            outcome_view(r) == stored(done_view(done)),
    {
        match done {
            Ok(()) => Ok(()),
            Err(message) => Err(Error::StoreError(message)),
        }
    }
}

} // verus!
