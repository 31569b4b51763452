//! Where the text of a leaf meets the number it stands for.
//!
//! A number is held as the bit pattern of a 32-bit IEEE 754 value. The caller
//! supplies the reader that takes decimal text to such a number, and the
//! renderer that writes one out. What is decided here is what a reading leads
//! to: the number, or the error that names the field and its text.
use vstd::prelude::*;
use crate::error::{DecodeError, DecodeErrorView, plain_outcome};

verus! {

/// Whether `read`, given `text`, may hand back `number`.
pub open spec fn may_read<F: Fn(&str) -> Option<u32>>(
    read: F,
    text: Seq<char>,
    number: Option<u32>,
) -> bool {
    exists|s: &str| s@ == text && call_ensures(read, (s,), number)
}

/// Whether `render`, given `bits`, may hand back `text`.
pub open spec fn may_render<G: Fn(u32) -> String>(render: G, bits: u32, text: Seq<char>) -> bool {
    exists|s: String| s@ == text && call_ensures(render, (bits,), s)
}

/// A reader and a renderer as functions of their arguments alone.
pub struct NumberCodec {
    pub render: spec_fn(u32) -> Seq<char>,
    pub read: spec_fn(Seq<char>) -> Option<u32>,
}

impl NumberCodec {
    /// Whether reading what was rendered of `bits` gives `bits` back, and the
    /// rendering is not empty.
    pub open spec fn round_trips(self, bits: u32) -> bool {
        (self.read)((self.render)(bits)) == Some(bits) && (self.render)(bits).len() > 0
    }
}

/// Whether `read` hands back, for every text, what the codec reads from it.
pub open spec fn reads_as<F: Fn(&str) -> Option<u32>>(read: F, codec: NumberCodec) -> bool {
    forall|s: &str, number: Option<u32>| #[trigger]
        call_ensures(read, (s,), number) ==> number == (codec.read)(s@)
}

/// Whether `render` hands back, for every number, what the codec renders of
/// it.
pub open spec fn renders_as<G: Fn(u32) -> String>(render: G, codec: NumberCodec) -> bool {
    forall|bits: u32, s: String| #[trigger]
        call_ensures(render, (bits,), s) ==> s@ == (codec.render)(bits)
}

/// What a reading of `text`, found under `field`, leads to: the number that
/// was read, or `InvalidNumber` with the field and the text where none was.
pub open spec fn number_of(field: Seq<char>, text: Seq<char>, reading: Option<u32>) -> Result<
    u32,
    DecodeErrorView,
> {
    match reading {
        Some(bits) => Ok(bits),
        None => Err(DecodeErrorView::InvalidNumber { field, text }),
    }
}

/// The number that was read from the text of `field`, or the error that tells
/// which text of which field is no number.
pub fn checked_number(field: &str, text: &str, reading: Option<u32>) -> (r: Result<
    u32,
    DecodeError,
>)
    ensures
        plain_outcome(r) == number_of(field@, text@, reading),
{
    match reading {
        Some(bits) => Ok(bits),
        None => Err(DecodeError::InvalidNumber { field: field.to_owned(), text: text.to_owned() }),
    }
}

/// Reads the text of a leaf as a number. The reader is handed exactly `text`;
/// where it finds no number, the error is `InvalidNumber` with `field` and
/// `text`.
pub fn parse_leaf<F: Fn(&str) -> Option<u32>>(field: &str, text: &str, read: F) -> (r: Result<
    u32,
    DecodeError,
>)
    requires
        forall|s: &str| call_requires(read, (s,)),
    ensures
        exists|reading: Option<u32>|
            may_read(read, text@, reading) && plain_outcome(r) == number_of(
                field@,
                text@,
                reading,
            ),
{
    let reading = read(text);
    checked_number(field, text, reading)
}

/// Writes a number out as the text of a leaf: whatever the renderer makes of
/// `bits`.
pub fn format_leaf<G: Fn(u32) -> String>(bits: u32, render: G) -> (text: String)
    requires
        forall|b: u32| call_requires(render, (b,)),
    ensures
        may_render(render, bits, text@),
{
    render(bits)
}

} // verus!
