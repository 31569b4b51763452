//! The price of a product: an amount in one of two currencies.
use vstd::prelude::*;
use vstd::pervasive::unreached;
use crate::error::{DecodeError, DecodeErrorView, plain_outcome};
use crate::flattened::{
    Candidate, CandidateView, Variant, candidate_of, decode_union, encode_union, encoded_union,
    finish_variant, variant_from,
};
use crate::node::{Entry, children_view};
use crate::number::{may_read, may_render, number_of};
use crate::registry::{Registry, distinct_tags};

verus! {

/// An amount of money. The variant names the currency; the payload is the
/// amount, as the bit pattern of a 32-bit IEEE 754 number.
#[derive(Debug, Clone, Copy, PartialEq, Eq)]
pub enum Currency {
    Dollars(u32),
    Euros(u32),
}

/// The tags of the union, one for each variant, in the order of the variants.
pub open spec fn currency_tags() -> Seq<Seq<char>> {
    seq!["Dollars"@, "Euros"@]
}

/// The two tags differ, so each stands for one variant.
pub proof fn lemma_currency_tags_distinct()
    ensures
        distinct_tags(currency_tags()),
{
    reveal_strlit("Dollars");
    reveal_strlit("Euros");
    assert("Dollars"@.len() != "Euros"@.len());
}

impl Currency {
    /// The place of the active variant among the tags.
    pub open spec fn index(self) -> int {
        match self {
            Currency::Dollars(_) => 0,
            Currency::Euros(_) => 1,
        }
    }

    /// The payload of the active variant.
    pub open spec fn bits(self) -> u32 {
        match self {
            Currency::Dollars(bits) => bits,
            Currency::Euros(bits) => bits,
        }
    }

    /// The value of the variant at place `index` with the given payload, where
    /// the union has such a variant.
    pub open spec fn at(index: int, payload: u32) -> Option<Currency> {
        if index == 0 {
            Some(Currency::Dollars(payload))
        } else if index == 1 {
            Some(Currency::Euros(payload))
        } else {
            None
        }
    }

    /// The active variant by its place among the tags, with its payload.
    pub fn variant(&self) -> (v: Variant)
        ensures
            v.index == self.index(),
            v.payload == self.bits(),
    {
        match self {
            Currency::Dollars(bits) => Variant { index: 0, payload: *bits },
            Currency::Euros(bits) => Variant { index: 1, payload: *bits },
        }
    }

    /// The value that a variant stands for; nothing where the union has no
    /// variant at that place.
    pub fn from_variant(variant: Variant) -> (r: Option<Currency>)
        ensures
            r == Currency::at(variant.index as int, variant.payload),
    {
        if variant.index == 0 {
            Some(Currency::Dollars(variant.payload))
        } else if variant.index == 1 {
            Some(Currency::Euros(variant.payload))
        } else {
            None
        }
    }
}

/// The registry of the union: its tags in the order of its variants.
pub fn currency_registry() -> (registry: Registry)
    ensures
        registry@ == currency_tags(),
{
    let mut tags: Vec<String> = Vec::new();
    tags.push("Dollars".to_owned());
    tags.push("Euros".to_owned());
    proof {
        lemma_currency_tags_distinct();
    }
    match Registry::new(tags) {
        Some(registry) => registry,
        None => unreached(),
    }
}

/// What a reading of the candidate's text leads to: the value of the
/// candidate's variant with the number read, or `InvalidNumber` with the
/// candidate's name and text. A candidate of some other union, at a place
/// where this union has no variant, has no tag here: `MissingVariantTag`.
pub open spec fn currency_from(candidate: CandidateView, reading: Option<u32>) -> Result<
    Currency,
    DecodeErrorView,
> {
    match number_of(candidate.key, candidate.text, reading) {
        Ok(bits) => match Currency::at(candidate.variant, bits) {
            Some(value) => Ok(value),
            None => Err(DecodeErrorView::MissingVariantTag),
        },
        Err(error) => Err(error),
    }
}

/// The value that the candidate and what was read from its text stand for.
pub fn currency_from_reading(candidate: &Candidate, reading: Option<u32>) -> (r: Result<
    Currency,
    DecodeError,
>)
    ensures
        plain_outcome(r) == currency_from(candidate@, reading),
{
    match finish_variant(candidate, reading) {
        Err(error) => Err(error),
        Ok(variant) => match Currency::from_variant(variant) {
            Some(value) => Ok(value),
            None => Err(DecodeError::MissingVariantTag),
        },
    }
}

/// Reads the union from the children of its record.
///
/// The first child named `Dollars` or `Euros` decides the variant, and later
/// children of either name are not looked at. That child holds its text bare
/// or in the one-field wrapper; the reader is handed that text and nothing
/// else. The errors are `MissingVariantTag` where no child has either name,
/// `UnexpectedShape` where the chosen child is no leaf, and `InvalidNumber`
/// with the child's name and text where the reader finds no number.
pub fn deserialize_flattened<F: Fn(&str) -> Option<u32>>(children: &Vec<Entry>, read: F) -> (r: Result<
    Currency,
    DecodeError,
>)
    requires
        forall|s: &str| call_requires(read, (s,)),
    ensures
        match candidate_of(currency_tags(), children_view(children@)) {
            Err(error) => plain_outcome(r) == Err::<Currency, DecodeErrorView>(error),
            Ok(candidate) => exists|reading: Option<u32>|
                may_read(read, candidate.text, reading) && plain_outcome(r) == currency_from(
                    candidate,
                    reading,
                ),
        },
{
    let registry = currency_registry();
    let decoded = decode_union(&registry, children, read);
    let r = match decoded {
        Err(error) => Err(error),
        Ok(variant) => match Currency::from_variant(variant) {
            Some(value) => Ok(value),
            None => Err(DecodeError::MissingVariantTag),
        },
    };
    proof {
        let located = candidate_of(currency_tags(), children_view(children@));
        if located is Ok {
            let candidate = located->Ok_0;
            let reading = choose|reading: Option<u32>|
                may_read(read, candidate.text, reading) && plain_outcome(decoded) == variant_from(
                    candidate,
                    reading,
                );
            assert(may_read(read, candidate.text, reading) && plain_outcome(r) == currency_from(
                candidate,
                reading,
            ));
        }
    }
    r
}

/// Writes the union as the one child that stands for its active variant: the
/// child is named by the variant's tag and holds, as bare text, what the
/// renderer makes of the payload.
pub fn serialize_flattened<G: Fn(u32) -> String>(value: &Currency, render: G) -> (child: Entry)
    requires
        forall|b: u32| call_requires(render, (b,)),
    ensures
        exists|text: Seq<char>|
            may_render(render, value.bits(), text) && Some(child@) == encoded_union(
                currency_tags(),
                value.index(),
                text,
            ),
{
    let registry = currency_registry();
    match encode_union(&registry, value.variant(), render) {
        Some(child) => child,
        None => unreached(),
    }
}

} // verus!
