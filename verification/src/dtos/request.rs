use vstd::prelude::*;

verus! {

/// What the body of a record asks for. With a key it asks to look a product
/// up and forward it; without one it asks to create a product, and then needs
/// a name and a price.
#[derive(Debug, Clone, PartialEq, Eq)]
pub struct Request {
    /// The key of the product to look up.
    pub pk: Option<String>,
    /// The name of the product to create.
    pub name: Option<String>,
    /// The price of the product to create, as the text of a decimal number.
    pub price: Option<String>,
}

/// The mathematical model of a [`Request`].
pub struct RequestView {
    pub pk: Option<Seq<char>>,
    pub name: Option<Seq<char>>,
    pub price: Option<Seq<char>>,
}

/// The model of a text that may be absent.
pub open spec fn text_view(text: Option<String>) -> Option<Seq<char>> {
    match text {
        Some(text) => Some(text@),
        None => None,
    }
}

impl View for Request {
    type V = RequestView;

    open spec fn view(&self) -> RequestView {
        RequestView {
            pk: text_view(self.pk),
            name: text_view(self.name),
            price: text_view(self.price),
        }
    }
}

impl Default for Request {
    /// The request that holds nothing.
    fn default() -> (request: Request)
        ensures
            request@ == (RequestView { pk: None, name: None, price: None }),
    {
        Request { pk: None, name: None, price: None }
    }
}

} // verus!
