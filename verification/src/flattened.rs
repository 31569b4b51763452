//! A union written flat among the children of its record: the child named
//! after a variant carries that variant's payload as the text of a leaf.
use vstd::prelude::*;
use crate::error::{DecodeError, DecodeErrorView, outcome, plain_outcome};
use crate::node::{
    Entry, EntryView, ValueNode, ValueNodeView, children_view, first_where, leaf_text,
    leaf_text_of, lemma_first_where, lemma_none_where,
};
use crate::number::{checked_number, format_leaf, may_read, may_render, number_of, parse_leaf};
use crate::registry::{Registry, registered, tagged, variant_of};

verus! {

/// The place of the first child, in document order, that is named after a
/// variant. Later children of such names are not looked at.
pub open spec fn first_candidate(tags: Seq<Seq<char>>, children: Seq<EntryView>) -> Option<int> {
    first_where(children, tagged(tags))
}

/// The child chosen for a union: the variant its name stands for, the name,
/// and the text of its leaf, still unread.
#[derive(Debug, PartialEq)]
pub struct Candidate {
    pub variant: usize,
    pub key: String,
    pub text: String,
}

pub struct CandidateView {
    pub variant: int,
    pub key: Seq<char>,
    pub text: Seq<char>,
}

impl View for Candidate {
    type V = CandidateView;

    open spec fn view(&self) -> CandidateView {
        CandidateView { variant: self.variant as int, key: self.key@, text: self.text@ }
    }
}

/// The child chosen among `children` for the union of the given tags.
///
/// It is the first child named after a variant. Without one the error is
/// `MissingVariantTag`; where that child is no leaf, `UnexpectedShape`.
pub open spec fn candidate_of(tags: Seq<Seq<char>>, children: Seq<EntryView>) -> Result<
    CandidateView,
    DecodeErrorView,
> {
    match first_candidate(tags, children) {
        None => Err(DecodeErrorView::MissingVariantTag),
        Some(i) => match leaf_text_of(children[i].value) {
            None => Err(DecodeErrorView::UnexpectedShape),
            Some(text) => Ok(
                CandidateView {
                    variant: variant_of(tags, children[i].key).unwrap(),
                    key: children[i].key,
                    text,
                },
            ),
        },
    }
}

/// A variant of a union by its place among the tags, with its payload.
#[derive(Debug, Clone, Copy, PartialEq, Eq)]
pub struct Variant {
    pub index: usize,
    pub payload: u32,
}

/// What a reading of the candidate's text leads to: the candidate's variant
/// with the number read, or `InvalidNumber` with the candidate's name and text.
pub open spec fn variant_from(candidate: CandidateView, reading: Option<u32>) -> Result<
    Variant,
    DecodeErrorView,
> {
    match number_of(candidate.key, candidate.text, reading) {
        Ok(bits) => Ok(Variant { index: candidate.variant as usize, payload: bits }),
        Err(error) => Err(error),
    }
}

/// Finds the child that carries the union and takes the text of its leaf.
pub fn locate_variant(registry: &Registry, children: &Vec<Entry>) -> (r: Result<
    Candidate,
    DecodeError,
>)
    ensures
        outcome(r) == candidate_of(registry@, children_view(children@)),
{
    let ghost tags = registry@;
    let ghost views = children_view(children@);
    let mut i: usize = 0;
    while i < children.len()
        invariant
            i <= children.len(),
            tags == registry@,
            views == children_view(children@),
            forall|j: int| 0 <= j < i ==> !registered(tags, #[trigger] views[j].key),
        decreases children.len() - i,
    {
        let child = &children[i];
        match registry.resolve(child.key.as_str()) {
            Some(variant) => {
                proof {
                    lemma_first_where(views, tagged(tags), i as int);
                }
                return match leaf_text(&child.value) {
                    Ok(text) => Ok(Candidate { variant, key: child.key.clone(), text }),
                    Err(error) => Err(error),
                };
            },
            None => {},
        }
        i += 1;
    }
    proof {
        lemma_none_where(views, tagged(tags));
    }
    Err(DecodeError::MissingVariantTag)
}

/// Builds the variant from the candidate and what was read from its text.
pub fn finish_variant(candidate: &Candidate, reading: Option<u32>) -> (r: Result<
    Variant,
    DecodeError,
>)
    ensures
        plain_outcome(r) == variant_from(candidate@, reading),
{
    match checked_number(candidate.key.as_str(), candidate.text.as_str(), reading) {
        Ok(bits) => Ok(Variant { index: candidate.variant, payload: bits }),
        Err(error) => Err(error),
    }
}

/// Reads a union from the children of its record.
///
/// The first child named after a variant decides; the reader is handed the
/// text of that child's leaf and nothing else. Where no child can be chosen,
/// the reader is not consulted.
pub fn decode_union<F: Fn(&str) -> Option<u32>>(
    registry: &Registry,
    children: &Vec<Entry>,
    read: F,
) -> (r: Result<Variant, DecodeError>)
    requires
        forall|s: &str| call_requires(read, (s,)),
    ensures
        match candidate_of(registry@, children_view(children@)) {
            Err(error) => plain_outcome(r) == Err::<Variant, DecodeErrorView>(error),
            Ok(candidate) => exists|reading: Option<u32>|
                may_read(read, candidate.text, reading) && plain_outcome(r) == variant_from(
                    candidate,
                    reading,
                ),
        },
{
    match locate_variant(registry, children) {
        Err(error) => Err(error),
        Ok(candidate) => {
            let number = parse_leaf(candidate.key.as_str(), candidate.text.as_str(), read);
            let r = match number {
                Ok(bits) => Ok(Variant { index: candidate.variant, payload: bits }),
                Err(error) => Err(error),
            };
            proof {
                let chosen = candidate_of(registry@, children_view(children@))->Ok_0;
                let reading = choose|reading: Option<u32>|
                    may_read(read, chosen.text, reading) && plain_outcome(number) == number_of(
                        chosen.key,
                        chosen.text,
                        reading,
                    );
                assert(may_read(read, chosen.text, reading) && plain_outcome(r) == variant_from(
                    chosen,
                    reading,
                ));
            }
            r
        },
    }
}

/// What a union is written as: one child named by the variant's tag, holding
/// `text` as bare text. Nothing where the union has no such variant.
pub open spec fn encoded_union(tags: Seq<Seq<char>>, index: int, text: Seq<char>) -> Option<
    EntryView,
> {
    if 0 <= index < tags.len() {
        Some(EntryView { key: tags[index], value: ValueNodeView::Text(text) })
    } else {
        None
    }
}

/// Writes a variant as the one child that stands for it. The text is what the
/// renderer makes of the payload, always bare, never wrapped.
pub fn encode_union<G: Fn(u32) -> String>(registry: &Registry, variant: Variant, render: G) -> (r:
    Option<Entry>)
    requires
        forall|b: u32| call_requires(render, (b,)),
    ensures
        match r {
            Some(child) => exists|text: Seq<char>|
                may_render(render, variant.payload, text) && Some(child@) == encoded_union(
                    registry@,
                    variant.index as int,
                    text,
                ),
            None => variant.index >= registry@.len(),
        },
{
    match registry.tag(variant.index) {
        None => None,
        Some(tag) => {
            let text = format_leaf(variant.payload, render);
            Some(Entry { key: tag.to_owned(), value: ValueNode::Text(text) })
        },
    }
}

} // verus!
