//! Products: what a request carries, what a valid product is, and the rules
//! that turn the first into the second. The price is carried through as it
//! came, in whatever type the caller keeps prices in.

use vstd::prelude::*;

use crate::ids::IdGenerator;
use crate::text::{decimal_i64, number_or, optional_text, parse_i64, trim, trimmed};

verus! {

/// The body of a request to create a product.
#[derive(Debug)]
pub struct CreateProductRequest<P> {
    pub name: String,
    pub currency: i16,
    pub price: P,
}

/// The number of a currency.
pub struct ValidCurrency(pub i16);

/// A product name without white space around it, and not empty.
pub struct ValidProductName(pub String);

/// A product that can be stored.
pub struct NewProduct<P> {
    pub id: i64,
    pub name: ValidProductName,
    pub currency: ValidCurrency,
    pub price: P,
}

/// The answer to a request that created a product.
pub struct CreateProductResponse {
    pub id: i64,
}

/// The body of a request to delete a product.
#[derive(Debug)]
pub struct DeleteProductRequest {
    pub id: i64,
}

/// The body of a request to update a product: the fields that are there
/// are the ones to change.
#[derive(Debug)]
pub struct UpdateProductRequest<P> {
    pub id: String,
    pub name: Option<String>,
    pub currency: Option<i16>,
    pub price: Option<P>,
}

/// The changes to a product that can be stored.
pub struct UpdateProduct<P> {
    pub id: i64,
    pub name: Option<ValidProductName>,
    pub currency: Option<ValidCurrency>,
    pub price: Option<P>,
}

/// The query of a request to list products.
#[derive(Debug)]
pub struct ListProductsRequest {
    pub keyword: Option<String>,
    pub page: Option<u64>,
    pub page_size: Option<u64>,
}

/// What the products of a listing are searched by.
#[derive(Debug, Default)]
pub struct ProductSearchParameters {
    pub id: Option<i64>,
    pub partial_name: Option<String>,
}

/// The text of an optional product name.
pub open spec fn optional_name_text(name: Option<ValidProductName>) -> Option<Seq<char>> {
    match name {
        Some(n) => Some(n.0@),
        None => None,
    }
}

/// The number of an optional currency.
pub open spec fn optional_currency_code(currency: Option<ValidCurrency>) -> Option<i16> {
    match currency {
        Some(c) => Some(c.0),
        None => None,
    }
}

/// The trimmed form of an optional name.
pub open spec fn optional_trimmed(name: Option<Seq<char>>) -> Option<Seq<char>> {
    match name {
        Some(n) => Some(trimmed(n)),
        None => None,
    }
}

impl ValidProductName {
    /// The name is not empty.
    pub open spec fn wf(self) -> bool {
        self.0@.len() > 0
    }

    /// Accepts a name that was trimmed unless nothing is left of it.
    pub fn accept(inner: String) -> (r: Result<Self, String>)
        ensures
            match r {
                Ok(valid) => inner@.len() > 0 && valid.0@ == inner@ && valid.wf(),
                Err(message) => inner@.len() == 0 && message@ == "Product name is empty."@,
            },
    {
        if inner.as_str().unicode_len() == 0 {
            Err("Product name is empty.".to_owned())
        } else {
            Ok(ValidProductName(inner))
        }
    }

    /// Trims `name` and accepts what is left unless nothing is left.
    pub fn parse(name: &str) -> (r: Result<Self, String>)
        ensures
            match r {
                Ok(valid) => trimmed(name@).len() > 0 && valid.0@ == trimmed(name@) && valid.wf(),
                Err(message) => trimmed(name@).len() == 0 && message@ == "Product name is empty."@,
            },
    {
        ValidProductName::accept(trim(name))
    }
}

impl<P> NewProduct<P> {
    /// Builds a product from a request whose name is not blank, under an
    /// identifier drawn from `generator`; no identifier is drawn otherwise.
    pub fn parse(req: CreateProductRequest<P>, generator: &mut IdGenerator) -> (r: Result<
        Self,
        String,
    >)
        ensures
            match r {
                Ok(new) => {
                    &&& trimmed(req.name@).len() > 0
                    &&& new.name.0@ == trimmed(req.name@)
                    &&& new.name.wf()
                    &&& new.currency.0 == req.currency
                    &&& new.price == req.price
                },
                Err(message) => trimmed(req.name@).len() == 0 && message@
                    == "Product name is empty."@,
            },
    {
        let name = match ValidProductName::parse(req.name.as_str()) {
            Ok(name) => name,
            Err(message) => { return Err(message); },
        };
        let id = generator.next_id();
        Ok(NewProduct { id, name, currency: ValidCurrency(req.currency), price: req.price })
    }
}

impl<P> UpdateProductRequest<P> {
    /// Why the request cannot become an update: a name that is blank, else
    /// an identifier that is no `i64`. `None` when it can.
    pub open spec fn complaint(self) -> Option<Seq<char>> {
        if self.name is Some && trimmed(self.name->0@).len() == 0 {
            Some("Product name is empty."@)
        } else if decimal_i64(self.id@) is None {
            Some("Can't parse id to i64."@)
        } else {
            None
        }
    }
}

impl<P> UpdateProduct<P> {
    /// The name, if there is one, is not empty.
    pub open spec fn wf(self) -> bool {
        self.name matches Some(n) ==> n.wf()
    }

    /// Builds an update from a request that raises no complaint.
    pub fn parse(req: UpdateProductRequest<P>) -> (r: Result<Self, String>)
        ensures
            match r {
                Ok(update) => {
                    &&& req.complaint() is None
                    &&& update.wf()
                    &&& Some(update.id) == decimal_i64(req.id@)
                    &&& optional_name_text(update.name) == optional_trimmed(optional_text(req.name))
                    &&& optional_currency_code(update.currency) == req.currency
                    &&& update.price == req.price
                },
                Err(message) => req.complaint() == Some(message@),
            },
    {
        let name = match req.name {
            None => None,
            Some(text) => match ValidProductName::parse(text.as_str()) {
                Ok(name) => Some(name),
                Err(message) => { return Err(message); },
            },
        };
        let id = match number_or(parse_i64(req.id.as_str()), "Can't parse id to i64.") {
            Ok(id) => id,
            Err(message) => { return Err(message); },
        };
        let currency = match req.currency {
            Some(code) => Some(ValidCurrency(code)),
            None => None,
        };
        Ok(UpdateProduct { id, name, currency, price: req.price })
    }

    /// Whether the update changes anything at all.
    pub fn need_update(&self) -> (b: bool)
        ensures
            b == (self.name is Some || self.currency is Some || self.price is Some),
    {
        self.name.is_some() || self.currency.is_some() || self.price.is_some()
    }
}

} // verus!
