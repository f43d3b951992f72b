//! Validation and projection of the product-data response into a snapshot.

use vstd::prelude::*;
use vstd::string::*;
use crate::json::{
    JsonValue, at, element, field, text_of, int_of, opt_deref, get, get_index, as_text, as_int,
};
use crate::text::{parse_i64, parse_i64_spec};

verus! {

/// The price, stock and name of a product at one moment. `price` is in the
/// smallest currency unit.
pub struct ProductSnapshot {
    pub name: String,
    pub price: i64,
    pub stock: i64,
}

impl View for ProductSnapshot {
    type V = (Seq<char>, i64, i64);

    open spec fn view(&self) -> (Seq<char>, i64, i64) {
        (self.name@, self.price, self.stock)
    }
}

/// Why a response yields no snapshot.
pub enum ExtractError {
    /// The response carries an error list; this is its first message.
    RemoteError(String),
    /// The response carries an error list whose first entry has no message text.
    MalformedError,
    /// The product component or one of its fields is absent or mistyped.
    ShapeMismatch,
}

/// `ExtractError` with its message as a sequence.
pub enum ExtractFailure {
    RemoteError(Seq<char>),
    MalformedError,
    ShapeMismatch,
}

impl View for ExtractError {
    type V = ExtractFailure;

    open spec fn view(&self) -> ExtractFailure {
        match self {
            ExtractError::RemoteError(m) => ExtractFailure::RemoteError(m@),
            ExtractError::MalformedError => ExtractFailure::MalformedError,
            ExtractError::ShapeMismatch => ExtractFailure::ShapeMismatch,
        }
    }
}

/// Whether `c` is a component named `product_content`.
pub open spec fn is_product_content(c: JsonValue) -> bool {
    text_of(field(c, "name"@)) == Some("product_content"@)
}

/// The first element of `xs`, from position `i` on, that is the product component.
pub open spec fn first_product_content(xs: Seq<JsonValue>, i: int) -> Option<JsonValue>
    decreases xs.len() - i,
{
    if i < 0 || i >= xs.len() {
        None
    } else if is_product_content(xs[i]) {
        Some(xs[i])
    } else {
        first_product_content(xs, i + 1)
    }
}

/// The list of components of a response, where it has one.
pub open spec fn components(doc: JsonValue) -> Option<JsonValue> {
    at(at(field(doc, "data"@), "pdpGetLayout"@), "components"@)
}

/// The product component of a response: the first component named
/// `product_content`.
pub open spec fn product_component(doc: JsonValue) -> Option<JsonValue> {
    match components(doc) {
        Some(JsonValue::Array(xs)) => first_product_content(xs@, 0),
        _ => None,
    }
}

/// What a response yields: the error it reports, else the snapshot read from
/// the first data element of its product component.
pub open spec fn extract_spec(doc: JsonValue) -> Result<(Seq<char>, i64, i64), ExtractFailure> {
    if field(doc, "errors"@).is_some() {
        match text_of(at(element(field(doc, "errors"@), 0), "message"@)) {
            Some(m) => Err(ExtractFailure::RemoteError(m)),
            None => Err(ExtractFailure::MalformedError),
        }
    } else {
        let data = element(at(product_component(doc), "data"@), 0);
        let name = text_of(at(data, "name"@));
        let price = int_of(at(at(data, "price"@), "value"@));
        let stock_text = text_of(at(at(data, "stock"@), "value"@));
        if name.is_none() || price.is_none() || stock_text.is_none() || parse_i64_spec(
            stock_text.unwrap(),
        ).is_none() {
            Err(ExtractFailure::ShapeMismatch)
        } else {
            Ok((name.unwrap(), price.unwrap(), parse_i64_spec(stock_text.unwrap()).unwrap()))
        }
    }
}

fn find_product_component<'a>(doc: &'a JsonValue) -> (r: Option<&'a JsonValue>)
    ensures
        opt_deref(r) == product_component(*doc),
{
    let list = get(get(get(Some(doc), "data"), "pdpGetLayout"), "components");
    match list {
        Some(JsonValue::Array(xs)) => {
            let wanted = String::from_str("product_content");
            let mut i: usize = 0;
            while i < xs.len()
                invariant
                    i <= xs@.len(),
                    wanted@ == "product_content"@,
                    product_component(*doc) == first_product_content(xs@, 0),
                    first_product_content(xs@, 0) == first_product_content(xs@, i as int),
                decreases xs@.len() - i,
            {
                let c = &xs[i];
                let found = match as_text(get(Some(c), "name")) {
                    Some(n) => *n == wanted,
                    None => false,
                };
                if found {
                    return Some(c);
                }
                i = i + 1;
            }
            None
        },
        _ => None,
    }
}

/// Projects a product-data response into a snapshot, or says why it cannot.
pub fn extract(doc: &JsonValue) -> (r: Result<ProductSnapshot, ExtractError>)
    ensures
        match r {
            Ok(s) => extract_spec(*doc) == Ok::<_, ExtractFailure>(s@),
            Err(e) => extract_spec(*doc) == Err::<(Seq<char>, i64, i64), _>(e@),
        },
{
    let errors = get(Some(doc), "errors");
    if errors.is_some() {
        return match as_text(get(get_index(errors, 0), "message")) {
            Some(m) => Err(ExtractError::RemoteError(m.clone())),
            None => Err(ExtractError::MalformedError),
        };
    }
    let data = get_index(get(find_product_component(doc), "data"), 0);
    let name = as_text(get(data, "name"));
    let price = as_int(get(get(data, "price"), "value"));
    let stock_text = as_text(get(get(data, "stock"), "value"));
    match (name, price, stock_text) {
        (Some(name), Some(price), Some(stock_text)) => match parse_i64(stock_text.as_str()) {
            Some(stock) => Ok(ProductSnapshot { name: name.clone(), price, stock }),
            None => Err(ExtractError::ShapeMismatch),
        },
        _ => Err(ExtractError::ShapeMismatch),
    }
}

proof fn lemma_no_product_content(xs: Seq<JsonValue>, i: int)
    requires
        0 <= i,
        forall|j: int| 0 <= j < xs.len() ==> !is_product_content(#[trigger] xs[j]),
    ensures
        first_product_content(xs, i).is_none(),
    decreases xs.len() - i,
{
    if i < xs.len() {
        lemma_no_product_content(xs, i + 1);
    }
}

/// A response without an error list in which no component is named
/// `product_content` yields `ShapeMismatch`, and so no snapshot at all.
pub proof fn missing_product_content_is_shape_mismatch(doc: JsonValue)
    requires
        field(doc, "errors"@).is_none(),
        forall|xs: Vec<JsonValue>, j: int|
            components(doc) == Some(JsonValue::Array(xs)) && 0 <= j < xs@.len()
                ==> !is_product_content(#[trigger] xs@[j]),
    ensures
        extract_spec(doc) == Err::<(Seq<char>, i64, i64), _>(ExtractFailure::ShapeMismatch),
{
    if let Some(JsonValue::Array(xs)) = components(doc) {
        assert forall|j: int| 0 <= j < xs@.len() implies !is_product_content(#[trigger] xs@[j]) by {
        }
        lemma_no_product_content(xs@, 0);
    }
}

} // verus!
