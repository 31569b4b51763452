//! The sale of a product: a number that may be absent, written as plain text.
use vstd::prelude::*;
use crate::error::{DecodeError, DecodeErrorView, plain_outcome};
use crate::number::{checked_number, format_leaf, may_read, may_render, number_of, parse_leaf};

verus! {

/// The reduction on a product, as the bit pattern of a 32-bit IEEE 754 number.
#[derive(Debug, Clone, Copy, PartialEq, Eq)]
pub struct Sale(pub u32);

/// The name of the child that holds the sale.
pub open spec fn sale_key() -> Seq<char> {
    "Sale"@
}

/// What the raw text of the sale and a reading of it lead to: no sale where
/// the text is empty, whatever the reading; else the number read, or
/// `InvalidNumber` with the child's name and the text.
pub open spec fn sale_from(raw: Seq<char>, reading: Option<u32>) -> Result<
    Option<Sale>,
    DecodeErrorView,
> {
    if raw.len() == 0 {
        Ok(None)
    } else {
        match number_of(sale_key(), raw, reading) {
            Ok(bits) => Ok(Some(Sale(bits))),
            Err(error) => Err(error),
        }
    }
}

/// The sale that the raw text and a reading of it stand for.
pub fn sale_from_reading(raw: &str, reading: Option<u32>) -> (r: Result<Option<Sale>, DecodeError>)
    ensures
        plain_outcome(r) == sale_from(raw@, reading),
{
    if raw.is_empty() {
        Ok(None)
    } else {
        match checked_number("Sale", raw, reading) {
            Ok(bits) => Ok(Some(Sale(bits))),
            Err(error) => Err(error),
        }
    }
}

/// Reads the sale from its raw text. Empty text means that there is no sale,
/// and the reader is not consulted; any other text is handed to the reader,
/// and is an `InvalidNumber` where the reader finds no number in it.
pub fn parse_sale_or_empty_string<F: Fn(&str) -> Option<u32>>(raw: &str, read: F) -> (r: Result<
    Option<Sale>,
    DecodeError,
>)
    requires
        forall|s: &str| call_requires(read, (s,)),
    ensures
        raw@.len() == 0 ==> r == Ok::<Option<Sale>, DecodeError>(None),
        raw@.len() > 0 ==> exists|reading: Option<u32>|
            may_read(read, raw@, reading) && plain_outcome(r) == sale_from(raw@, reading),
{
    if raw.is_empty() {
        Ok(None)
    } else {
        let number = parse_leaf("Sale", raw, read);
        let r = match number {
            Ok(bits) => Ok(Some(Sale(bits))),
            Err(error) => Err(error),
        };
        proof {
            let reading = choose|reading: Option<u32>|
                may_read(read, raw@, reading) && plain_outcome(number) == number_of(
                    sale_key(),
                    raw@,
                    reading,
                );
            assert(may_read(read, raw@, reading) && plain_outcome(r) == sale_from(raw@, reading));
        }
        r
    }
}

/// Writes the sale as raw text: empty where there is none, else what the
/// renderer makes of the number.
pub fn sale_text<G: Fn(u32) -> String>(sale: &Option<Sale>, render: G) -> (text: String)
    requires
        forall|b: u32| call_requires(render, (b,)),
    ensures
        match *sale {
            None => text@.len() == 0,
            Some(Sale(bits)) => may_render(render, bits, text@),
        },
{
    match sale {
        None => String::new(),
        Some(Sale(bits)) => format_leaf(*bits, render),
    }
}

} // verus!
