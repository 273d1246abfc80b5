use vstd::prelude::*;
use crate::error::{Error, ErrorView};
use crate::models::attribute::{AttributeValue, AttributeValueView, Item, ItemView};
use crate::models::decimal::{is_decimal, is_decimal_text};

verus! {

/// A product as the table holds it.
#[derive(Debug, Clone, PartialEq, Eq)]
pub struct Product {
    /// The identifier, under which alone the product is found again.
    pub pk: String,
    /// The name.
    pub name: String,
    /// The price as the text of a decimal number, the form in which a number
    /// attribute of the table holds it.
    pub price: String,
}

/// The mathematical model of a [`Product`].
pub struct ProductView {
    pub pk: Seq<char>,
    pub name: Seq<char>,
    pub price: Seq<char>,
}

impl View for Product {
    type V = ProductView;

    open spec fn view(&self) -> ProductView {
        ProductView { pk: self.pk@, name: self.name@, price: self.price@ }
    }
}

/// The kind of attribute that a field of a product is stored as.
#[derive(Debug, Clone, Copy, PartialEq, Eq)]
pub enum ValueType {
    /// A number attribute.
    N,
    /// A string attribute.
    S,
}

/// The name of the attribute that holds the identifier.
pub open spec fn pk_name() -> Seq<char> {
    "pk"@
}

/// The name of the attribute that holds the name.
pub open spec fn name_name() -> Seq<char> {
    "name"@
}

/// The name of the attribute that holds the price.
pub open spec fn price_name() -> Seq<char> {
    "price"@
}

/// The three attribute names differ from one another.
pub proof fn lemma_names_differ()
    ensures
        pk_name() != name_name(),
        pk_name() != price_name(),
        name_name() != price_name(),
{
    reveal_strlit("pk");
    reveal_strlit("name");
    reveal_strlit("price");
    assert(pk_name().len() == 2);
    assert(name_name().len() == 4);
    assert(price_name().len() == 5);
}

/// The item that stands for a product: identifier and name as strings, the
/// price as a number.
pub open spec fn to_item(product: ProductView) -> ItemView {
    Map::<Seq<char>, AttributeValueView>::empty().insert(
        pk_name(),
        AttributeValueView::S(product.pk),
    ).insert(name_name(), AttributeValueView::S(product.name)).insert(
        price_name(),
        AttributeValueView::N(product.price),
    )
}

/// The text of the attribute `key` of `item`, which must be of kind `t`: a
/// missing attribute and one of another kind are the two errors. The text is
/// given as it stands; that of a number is not looked into.
pub open spec fn key_text(key: Seq<char>, t: ValueType, item: ItemView) -> Result<
    Seq<char>,
    ErrorView,
> {
    if !item.contains_key(key) {
        Err(ErrorView::MissingField(key))
    } else {
        match (t, item[key]) {
            (ValueType::S, AttributeValueView::S(text)) => Ok(text),
            (ValueType::N, AttributeValueView::N(text)) => Ok(text),
            _ => Err(ErrorView::TypeMismatch),
        }
    }
}

/// The product that an item stands for. The attributes are read in the order
/// identifier, name, price, and the first that fails gives the error. A price
/// whose text writes no decimal number is no price: the number attribute is
/// then not of the kind that a product needs.
pub open spec fn from_item(item: ItemView) -> Result<ProductView, ErrorView> {
    match key_text(pk_name(), ValueType::S, item) {
        Err(e) => Err(e),
        Ok(pk) => match key_text(name_name(), ValueType::S, item) {
            Err(e) => Err(e),
            Ok(name) => match key_text(price_name(), ValueType::N, item) {
                Err(e) => Err(e),
                Ok(price) => if is_decimal(price) {
                    Ok(ProductView { pk, name, price })
                } else {
                    Err(ErrorView::TypeMismatch)
                },
            },
        },
    }
}

/// The model of the outcome of reading a text.
pub open spec fn text_result_view(r: Result<String, Error>) -> Result<Seq<char>, ErrorView> {
    match r {
        Ok(text) => Ok(text@),
        Err(e) => Err(e@),
    }
}

/// The model of the outcome of reading a product.
pub open spec fn product_result_view(r: Result<Product, Error>) -> Result<ProductView, ErrorView> {
    match r {
        Ok(product) => Ok(product@),
        Err(e) => Err(e@),
    }
}

impl Product {
    /// The item under which the product is stored.
    pub fn to_dynamodb(&self) -> (item: Item)
        ensures
            item@ == to_item(self@),
    {
        let mut retval = Item::new();
        retval.insert("pk".to_owned(), AttributeValue::S(self.pk.clone()));
        retval.insert("name".to_owned(), AttributeValue::S(self.name.clone()));
        retval.insert("price".to_owned(), AttributeValue::N(self.price.clone()));
        retval
    }

    /// The product that a stored item holds. It is there exactly if the item
    /// has the identifier and the name as strings and the price as a number
    /// attribute that writes a decimal number; else the first of the three
    /// that is missing or is not of that kind gives the error.
    pub fn from_dynamodb(value: Item) -> (r: Result<Product, Error>)
        ensures
            product_result_view(r) == from_item(value@),
    {
        let pk = match Product::get_key("pk", ValueType::S, &value) {
            Ok(pk) => pk,
            Err(e) => {
                return Err(e);
            },
        };
        let name = match Product::get_key("name", ValueType::S, &value) {
            Ok(name) => name,
            Err(e) => {
                return Err(e);
            },
        };
        let price = match Product::get_key("price", ValueType::N, &value) {
            Ok(price) => price,
            Err(e) => {
                return Err(e);
            },
        };
        if !is_decimal_text(price.as_str()) {
            return Err(Error::TypeMismatch);
        }
        Ok(Product { pk, name, price })
    }

    /// The text of the attribute `key` of `item`, read as kind `t` and given
    /// as it stands.
    pub fn get_key(key: &str, t: ValueType, item: &Item) -> (r: Result<String, Error>)
        ensures
            text_result_view(r) == key_text(key@, t, item@),
    {
        let v = match item.get(key) {
            Some(v) => v,
            None => {
                return Err(Error::MissingField(key.to_owned()));
            },
        };
        let read = match t {
            ValueType::N => v.as_n(),
            ValueType::S => v.as_s(),
        };
        match read {
            Ok(text) => Ok(text.clone()),
            Err(_) => Err(Error::TypeMismatch),
        }
    }
}

/// An item made from a product whose price writes a decimal number gives
/// that product back.
pub proof fn lemma_item_round_trip(product: ProductView)
    requires
        is_decimal(product.price),
    ensures
        from_item(to_item(product)) == Ok::<ProductView, ErrorView>(product),
{
    lemma_names_differ();
}

/// The item of a product whose price writes no decimal number does not read
/// back: its price is of no kind that a product has.
pub proof fn lemma_item_of_no_number(product: ProductView)
    requires
        !is_decimal(product.price),
    ensures
        from_item(to_item(product)) == Err::<ProductView, ErrorView>(ErrorView::TypeMismatch),
{
    lemma_names_differ();
}

/// An item reads as a product exactly if it has the identifier and the name
/// as strings and the price as a number attribute whose text writes a decimal
/// number.
pub proof fn lemma_read_succeeds_exactly(item: ItemView)
    ensures
        from_item(item) is Ok <==> {
            &&& item.contains_key(pk_name()) && item[pk_name()] is S
            &&& item.contains_key(name_name()) && item[name_name()] is S
            &&& item.contains_key(price_name()) && item[price_name()] is N
            &&& is_decimal(item[price_name()]->N_0)
        },
{
}

/// A product that was read from an item has the item's three texts, and its
/// price writes a decimal number.
pub proof fn lemma_read_product(item: ItemView)
    requires
        from_item(item) is Ok,
    ensures
        item[pk_name()] == AttributeValueView::S(from_item(item)->Ok_0.pk),
        item[name_name()] == AttributeValueView::S(from_item(item)->Ok_0.name),
        item[price_name()] == AttributeValueView::N(from_item(item)->Ok_0.price),
        is_decimal(from_item(item)->Ok_0.price),
{
}

} // verus!
