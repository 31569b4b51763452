//! The control of a device: a setting of one of two kinds.
use vstd::prelude::*;
use vstd::pervasive::unreached;
use crate::error::{DecodeError, DecodeErrorView, plain_outcome};
use crate::flattened::{
    Candidate, CandidateView, Variant, candidate_of, decode_union, encode_union, encoded_union,
    finish_variant, variant_from,
};
use crate::node::{Entry, children_view};
use crate::number::{may_read, may_render, number_of};
use crate::registry::{Registry, distinct_tags};

verus! {

/// How a device is controlled. The variant names the kind of setting; the
/// payload is its value, as the bit pattern of a 32-bit IEEE 754 number.
#[derive(Debug, Clone, Copy, PartialEq, Eq)]
pub enum ControlKind {
    Voltage(u32),
    Power(u32),
}

/// The tags of the union, one for each variant, in the order of the variants.
pub open spec fn control_tags() -> Seq<Seq<char>> {
    seq!["Voltage"@, "Power"@]
}

/// The two tags differ, so each stands for one variant.
pub proof fn lemma_control_tags_distinct()
    ensures
        distinct_tags(control_tags()),
{
    reveal_strlit("Voltage");
    reveal_strlit("Power");
    assert("Voltage"@.len() != "Power"@.len());
}

impl ControlKind {
    /// The place of the active variant among the tags.
    pub open spec fn index(self) -> int {
        match self {
            ControlKind::Voltage(_) => 0,
            ControlKind::Power(_) => 1,
        }
    }

    /// The payload of the active variant.
    pub open spec fn bits(self) -> u32 {
        match self {
            ControlKind::Voltage(bits) => bits,
            ControlKind::Power(bits) => bits,
        }
    }

    /// The value of the variant at place `index` with the given payload, where
    /// the union has such a variant.
    pub open spec fn at(index: int, payload: u32) -> Option<ControlKind> {
        if index == 0 {
            Some(ControlKind::Voltage(payload))
        } else if index == 1 {
            Some(ControlKind::Power(payload))
        } else {
            None
        }
    }

    /// The active variant by its place among the tags, with its payload.
    pub fn variant(&self) -> (v: Variant)
        ensures
            v.index == self.index(),
            v.payload == self.bits(),
    {
        match self {
            ControlKind::Voltage(bits) => Variant { index: 0, payload: *bits },
            ControlKind::Power(bits) => Variant { index: 1, payload: *bits },
        }
    }

    /// The value that a variant stands for; nothing where the union has no
    /// variant at that place.
    pub fn from_variant(variant: Variant) -> (r: Option<ControlKind>)
        ensures
            r == ControlKind::at(variant.index as int, variant.payload),
    {
        if variant.index == 0 {
            Some(ControlKind::Voltage(variant.payload))
        } else if variant.index == 1 {
            Some(ControlKind::Power(variant.payload))
        } else {
            None
        }
    }
}

/// The registry of the union: its tags in the order of its variants.
pub fn control_registry() -> (registry: Registry)
    ensures
        registry@ == control_tags(),
{
    let mut tags: Vec<String> = Vec::new();
    tags.push("Voltage".to_owned());
    tags.push("Power".to_owned());
    proof {
        lemma_control_tags_distinct();
    }
    match Registry::new(tags) {
        Some(registry) => registry,
        None => unreached(),
    }
}

/// What a reading of the candidate's text leads to: the value of the
/// candidate's variant with the number read, or `InvalidNumber` with the
/// candidate's name and text. A candidate of some other union, at a place
/// where this union has no variant, has no tag here: `MissingVariantTag`.
pub open spec fn control_from(candidate: CandidateView, reading: Option<u32>) -> Result<
    ControlKind,
    DecodeErrorView,
> {
    match number_of(candidate.key, candidate.text, reading) {
        Ok(bits) => match ControlKind::at(candidate.variant, bits) {
            Some(value) => Ok(value),
            None => Err(DecodeErrorView::MissingVariantTag),
        },
        Err(error) => Err(error),
    }
}

/// The value that the candidate and what was read from its text stand for.
pub fn control_from_reading(candidate: &Candidate, reading: Option<u32>) -> (r: Result<
    ControlKind,
    DecodeError,
>)
    ensures
        plain_outcome(r) == control_from(candidate@, reading),
{
    match finish_variant(candidate, reading) {
        Err(error) => Err(error),
        Ok(variant) => match ControlKind::from_variant(variant) {
            Some(value) => Ok(value),
            None => Err(DecodeError::MissingVariantTag),
        },
    }
}

/// Reads the union from the children of its record.
///
/// The first child named `Voltage` or `Power` decides the variant, and later
/// children of either name are not looked at. That child holds its text bare
/// or in the one-field wrapper; the reader is handed that text and nothing
/// else. The errors are `MissingVariantTag` where no child has either name,
/// `UnexpectedShape` where the chosen child is no leaf, and `InvalidNumber`
/// with the child's name and text where the reader finds no number.
pub fn deserialize_control<F: Fn(&str) -> Option<u32>>(children: &Vec<Entry>, read: F) -> (r: Result<
    ControlKind,
    DecodeError,
>)
    requires
        forall|s: &str| call_requires(read, (s,)),
    ensures
        match candidate_of(control_tags(), children_view(children@)) {
            Err(error) => plain_outcome(r) == Err::<ControlKind, DecodeErrorView>(error),
            Ok(candidate) => exists|reading: Option<u32>|
                may_read(read, candidate.text, reading) && plain_outcome(r) == control_from(
                    candidate,
                    reading,
                ),
        },
{
    let registry = control_registry();
    let decoded = decode_union(&registry, children, read);
    let r = match decoded {
        Err(error) => Err(error),
        Ok(variant) => match ControlKind::from_variant(variant) {
            Some(value) => Ok(value),
            None => Err(DecodeError::MissingVariantTag),
        },
    };
    proof {
        let located = candidate_of(control_tags(), children_view(children@));
        if located is Ok {
            let candidate = located->Ok_0;
            let reading = choose|reading: Option<u32>|
                may_read(read, candidate.text, reading) && plain_outcome(decoded) == variant_from(
                    candidate,
                    reading,
                );
            assert(may_read(read, candidate.text, reading) && plain_outcome(r) == control_from(
                candidate,
                reading,
            ));
        }
    }
    r
}

/// Writes the union as the one child that stands for its active variant: the
/// child is named by the variant's tag and holds, as bare text, what the
/// renderer makes of the payload.
pub fn serialize_control<G: Fn(u32) -> String>(value: &ControlKind, render: G) -> (child: Entry)
    requires
        forall|b: u32| call_requires(render, (b,)),
    ensures
        exists|text: Seq<char>|
            may_render(render, value.bits(), text) && Some(child@) == encoded_union(
                control_tags(),
                value.index(),
                text,
            ),
{
    let registry = control_registry();
    match encode_union(&registry, value.variant(), render) {
        Some(child) => child,
        None => unreached(),
    }
}

} // verus!
