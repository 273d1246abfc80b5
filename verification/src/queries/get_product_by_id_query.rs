use vstd::prelude::*;
use crate::error::{Error, ErrorView};
use crate::models::attribute::{AttributeValue, AttributeValueView, Item, ItemView};
use crate::models::product::{from_item, pk_name, Product, ProductView};

verus! {

/// The name of the setting that holds the table's name.
pub const TABLE_NAME: &'static str = "TABLE_NAME";

/// The call that fetches one item of a table by its key.
#[derive(Debug, Clone, PartialEq, Eq)]
pub struct GetItem {
    /// The table to read.
    pub table_name: String,
    /// The key of the item.
    pub key: Item,
}

/// The mathematical model of a [`GetItem`].
pub struct GetItemView {
    pub table_name: Seq<char>,
    pub key: ItemView,
}

impl View for GetItem {
    type V = GetItemView;

    open spec fn view(&self) -> GetItemView {
        GetItemView { table_name: self.table_name@, key: self.key@ }
    }
}

/// The key of the product with the identifier `pk`: the identifier as a
/// string, under the identifier's attribute name.
pub open spec fn key_item(pk: Seq<char>) -> ItemView {
    Map::<Seq<char>, AttributeValueView>::empty().insert(pk_name(), AttributeValueView::S(pk))
}

/// The model of what the table answered to a fetch: the item, nothing, or
/// the message of its failure.
pub open spec fn fetched_view(fetched: Result<Option<Item>, String>) -> Result<
    Option<ItemView>,
    Seq<char>,
> {
    match fetched {
        Ok(Some(item)) => Ok(Some(item@)),
        Ok(None) => Ok(None),
        Err(message) => Err(message@),
    }
}

/// The model of the outcome of a lookup.
pub open spec fn lookup_view(r: Result<Option<Product>, Error>) -> Result<
    Option<ProductView>,
    ErrorView,
> {
    match r {
        Ok(Some(product)) => Ok(Some(product@)),
        Ok(None) => Ok(None),
        Err(e) => Err(e@),
    }
}

/// What a lookup gives for an answer of the table. That the table holds no
/// such item is no error; a failure of the table is a store error; an item
/// that is no product gives the error of reading it.
pub open spec fn found_product(fetched: Result<Option<ItemView>, Seq<char>>) -> Result<
    Option<ProductView>,
    ErrorView,
> {
    match fetched {
        Err(message) => Err(ErrorView::StoreError(message)),
        Ok(None) => Ok(None),
        Ok(Some(item)) => match from_item(item) {
            Ok(product) => Ok(Some(product)),
            Err(e) => Err(e),
        },
    }
}

/// The gateway that looks a product up by its identifier.
#[derive(Debug)]
pub struct GetById {
    table_name: String,
}

impl View for GetById {
    type V = Seq<char>;

    /// The name of the table that the gateway reads.
    closed spec fn view(&self) -> Seq<char> {
        self.table_name@
    }
}

impl GetById {
    /// The gateway for the table that the setting names. Without the setting
    /// there is none.
    pub fn new(table_name: Option<String>) -> (r: Result<GetById, Error>)
        ensures
            match r {
                Ok(gateway) => table_name matches Some(name) && gateway@ == name@,
                Err(e) => table_name is None && e@ == ErrorView::ConfigError(TABLE_NAME@),
            },
    {
        match table_name {
            Some(table_name) => Ok(GetById { table_name }),
            None => Err(Error::ConfigError(TABLE_NAME.to_owned())),
        }
    }

    /// The call that fetches the product with the identifier `pk`.
    pub fn request(&self, pk: &str) -> (call: GetItem)
        ensures
            call@ == (GetItemView { table_name: self@, key: key_item(pk@) }),
    {
        let mut key = Item::new();
        key.insert("pk".to_owned(), AttributeValue::S(pk.to_owned()));
        GetItem { table_name: self.table_name.clone(), key }
    }

    /// The product that the table's answer holds.
    pub fn response(fetched: Result<Option<Item>, String>) -> (r: Result<Option<Product>, Error>)
        ensures
            lookup_view(r) == found_product(fetched_view(fetched)),
    {
        match fetched {
            Err(message) => Err(Error::StoreError(message)),
            Ok(None) => Ok(None),
            Ok(Some(item)) => match Product::from_dynamodb(item) {
                Ok(product) => Ok(Some(product)),
                Err(e) => Err(e),
            },
        }
    }
}

} // verus!
