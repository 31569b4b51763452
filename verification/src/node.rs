//! The children of an element as names and value nodes, and the two forms in
//! which a leaf may carry its text.
use vstd::prelude::*;
use crate::error::{DecodeError, DecodeErrorView};
use crate::text::same_text;

verus! {

/// One field of a structural node: its name and, where its value is plain
/// text, that text. A field whose value is itself structural has no text.
#[derive(Debug, PartialEq)]
pub struct Field {
    pub name: String,
    pub text: Option<String>,
}

pub struct FieldView {
    pub name: Seq<char>,
    pub text: Option<Seq<char>>,
}

impl View for Field {
    type V = FieldView;

    open spec fn view(&self) -> FieldView {
        FieldView {
            name: self.name@,
            text: match self.text {
                Some(t) => Some(t@),
                None => None,
            },
        }
    }
}

/// The value found under a child's name: bare text, or a structural node seen
/// as the list of its fields in document order.
#[derive(Debug, PartialEq)]
pub enum ValueNode {
    Text(String),
    Fields(Vec<Field>),
}

pub enum ValueNodeView {
    Text(Seq<char>),
    Fields(Seq<FieldView>),
}

impl View for ValueNode {
    type V = ValueNodeView;

    open spec fn view(&self) -> ValueNodeView {
        match self {
            ValueNode::Text(t) => ValueNodeView::Text(t@),
            ValueNode::Fields(fields) => ValueNodeView::Fields(
                fields@.map_values(|f: Field| f@),
            ),
        }
    }
}

/// A child of an element: the child's name and what it holds.
#[derive(Debug, PartialEq)]
pub struct Entry {
    pub key: String,
    pub value: ValueNode,
}

pub struct EntryView {
    pub key: Seq<char>,
    pub value: ValueNodeView,
}

impl View for Entry {
    type V = EntryView;

    open spec fn view(&self) -> EntryView {
        EntryView { key: self.key@, value: self.value@ }
    }
}

/// The children of an element, each taken by its view, in document order.
pub open spec fn children_view(children: Seq<Entry>) -> Seq<EntryView> {
    children.map_values(|e: Entry| e@)
}

/// Whether child `i` has a name that is wanted and no child before it has.
pub open spec fn is_first_where(
    children: Seq<EntryView>,
    wanted: spec_fn(Seq<char>) -> bool,
    i: int,
) -> bool {
    &&& 0 <= i < children.len()
    &&& wanted(children[i].key)
    &&& forall|j: int| 0 <= j < i ==> !wanted(#[trigger] children[j].key)
}

/// The place of the first child, in document order, whose name is wanted.
/// Later children of such names are not looked at.
pub open spec fn first_where(children: Seq<EntryView>, wanted: spec_fn(Seq<char>) -> bool) -> Option<
    int,
> {
    if exists|i: int| is_first_where(children, wanted, i) {
        Some(choose|i: int| is_first_where(children, wanted, i))
    } else {
        None
    }
}

/// A child whose name is wanted, with none before it, is the first such child.
pub proof fn lemma_first_where(
    children: Seq<EntryView>,
    wanted: spec_fn(Seq<char>) -> bool,
    i: int,
)
    requires
        is_first_where(children, wanted, i),
    ensures
        first_where(children, wanted) == Some(i),
{
}

/// Where no child has a wanted name, there is no first such child.
pub proof fn lemma_none_where(children: Seq<EntryView>, wanted: spec_fn(Seq<char>) -> bool)
    requires
        forall|j: int| 0 <= j < children.len() ==> !wanted(#[trigger] children[j].key),
    ensures
        first_where(children, wanted) is None,
{
}

/// The names that equal `key`, letter for letter.
pub open spec fn named(key: Seq<char>) -> spec_fn(Seq<char>) -> bool {
    |name: Seq<char>| name == key
}

/// The field name under which a structural node carries the direct text
/// content of its element.
pub open spec fn text_key() -> Seq<char> {
    "$text"@
}

/// The text of a leaf, in the form in which the document carried it.
#[derive(Debug, PartialEq)]
pub enum LeafText {
    /// The element held bare text.
    PlainText(String),
    /// The element held a structural node whose only field is the text content.
    WrappedText(String),
}

pub enum LeafTextView {
    PlainText(Seq<char>),
    WrappedText(Seq<char>),
}

impl View for LeafText {
    type V = LeafTextView;

    open spec fn view(&self) -> LeafTextView {
        match self {
            LeafText::PlainText(t) => LeafTextView::PlainText(t@),
            LeafText::WrappedText(t) => LeafTextView::WrappedText(t@),
        }
    }
}

impl LeafTextView {
    /// The text, whichever form carried it.
    pub open spec fn text(self) -> Seq<char> {
        match self {
            LeafTextView::PlainText(t) => t,
            LeafTextView::WrappedText(t) => t,
        }
    }
}

impl LeafText {
    /// The text, whichever form carried it.
    pub fn into_text(self) -> (t: String)
        ensures
            t@ == self@.text(),
    {
        match self {
            LeafText::PlainText(t) => t,
            LeafText::WrappedText(t) => t,
        }
    }
}

/// The form of a leaf: bare text is plain; a structural node with exactly one
/// field, named [`text_key`] and holding text, is wrapped; anything else is no
/// leaf.
pub open spec fn leaf_form_of(node: ValueNodeView) -> Option<LeafTextView> {
    match node {
        ValueNodeView::Text(t) => Some(LeafTextView::PlainText(t)),
        ValueNodeView::Fields(fields) => {
            if fields.len() == 1 && fields[0].name == text_key() && fields[0].text is Some {
                Some(LeafTextView::WrappedText(fields[0].text->0))
            } else {
                None
            }
        },
    }
}

/// The text of a leaf in either form, or nothing where the node is no leaf.
pub open spec fn leaf_text_of(node: ValueNodeView) -> Option<Seq<char>> {
    match leaf_form_of(node) {
        Some(form) => Some(form.text()),
        None => None,
    }
}

/// Tells the two forms of a leaf apart, and refuses every other shape with
/// `UnexpectedShape`.
pub fn leaf_form(node: &ValueNode) -> (r: Result<LeafText, DecodeError>)
    ensures
        match leaf_form_of(node@) {
            Some(form) => r matches Ok(found) && found@ == form,
            None => r matches Err(error) && error@ == DecodeErrorView::UnexpectedShape,
        },
{
    match node {
        ValueNode::Text(t) => Ok(LeafText::PlainText(t.clone())),
        ValueNode::Fields(fields) => {
            if fields.len() != 1 {
                return Err(DecodeError::UnexpectedShape);
            }
            let field = &fields[0];
            if !same_text(field.name.as_str(), "$text") {
                return Err(DecodeError::UnexpectedShape);
            }
            match &field.text {
                Some(t) => Ok(LeafText::WrappedText(t.clone())),
                None => Err(DecodeError::UnexpectedShape),
            }
        },
    }
}

/// The text of a leaf in either form; `UnexpectedShape` where the node is no
/// leaf.
pub fn leaf_text(node: &ValueNode) -> (r: Result<String, DecodeError>)
    ensures
        match leaf_text_of(node@) {
            Some(text) => r matches Ok(found) && found@ == text,
            None => r matches Err(error) && error@ == DecodeErrorView::UnexpectedShape,
        },
{
    match leaf_form(node) {
        Ok(form) => Ok(form.into_text()),
        Err(error) => Err(error),
    }
}

} // verus!
