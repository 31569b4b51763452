//! What holds of reading and writing, whatever the record and the document.
use vstd::prelude::*;
use crate::control::{ControlKind, control_from, control_tags, lemma_control_tags_distinct};
use crate::currency::{Currency, currency_from, currency_tags, lemma_currency_tags_distinct};
use crate::error::DecodeErrorView;
use crate::flattened::{CandidateView, candidate_of, first_candidate, variant_from};
use crate::node::{
    EntryView, FieldView, ValueNodeView, first_where, is_first_where, leaf_text_of,
    lemma_first_where, named, text_key,
};
use crate::number::NumberCodec;
use crate::record::{
    DeviceRecordView, ProductView, decoded_device, decoded_product, encoded_device,
    encoded_product, field_text_of, name_key,
};
use crate::registry::{distinct_tags, lemma_variant_of_tag, registered, tagged};
use crate::sale::{Sale, sale_from, sale_key};

verus! {

/// The names of the ordinary children are no tags of either union, and differ
/// from each other.
pub proof fn lemma_ordinary_names_are_no_tags()
    ensures
        !registered(currency_tags(), name_key()),
        !registered(currency_tags(), sale_key()),
        !registered(control_tags(), name_key()),
        !registered(control_tags(), sale_key()),
        name_key() != sale_key(),
{
    reveal_strlit("Name");
    reveal_strlit("Sale");
    reveal_strlit("Dollars");
    reveal_strlit("Euros");
    reveal_strlit("Voltage");
    reveal_strlit("Power");
    assert("Name"@[0] != "Sale"@[0]);
}

/// Reading back what was written of a product gives the product, for every
/// product whose numbers the codec takes to text and back.
pub proof fn lemma_product_round_trip(product: ProductView, codec: NumberCodec)
    requires
        codec.round_trips(product.price.bits()),
        product.sale matches Some(Sale(bits)) ==> codec.round_trips(bits),
    ensures
        decoded_product(encoded_product(product, codec), codec) == Ok::<
            ProductView,
            DecodeErrorView,
        >(product),
{
    let children = encoded_product(product, codec);
    let tags = currency_tags();
    let place = product.price.index();
    lemma_ordinary_names_are_no_tags();
    lemma_currency_tags_distinct();
    lemma_variant_of_tag(tags, place);
    lemma_first_where(children, named(name_key()), 0);
    lemma_first_where(children, tagged(tags), 1);
    lemma_first_where(children, named(sale_key()), 2);
}

/// Reading back what was written of a device gives the device, for every
/// device whose number the codec takes to text and back.
pub proof fn lemma_device_round_trip(device: DeviceRecordView, codec: NumberCodec)
    requires
        codec.round_trips(device.control.bits()),
    ensures
        decoded_device(encoded_device(device, codec), codec) == Ok::<
            DeviceRecordView,
            DecodeErrorView,
        >(device),
{
    let children = encoded_device(device, codec);
    let tags = control_tags();
    let place = device.control.index();
    lemma_ordinary_names_are_no_tags();
    lemma_control_tags_distinct();
    lemma_variant_of_tag(tags, place);
    lemma_first_where(children, named(name_key()), 0);
    lemma_first_where(children, tagged(tags), 1);
}

/// A leaf that holds `text` in the one-field wrapper.
pub open spec fn wrapped(text: Seq<char>) -> ValueNodeView {
    ValueNodeView::Fields(seq![FieldView { name: text_key(), text: Some(text) }])
}

/// Bare and wrapped, a leaf gives the same text.
pub proof fn lemma_leaf_forms_agree(text: Seq<char>)
    ensures
        leaf_text_of(ValueNodeView::Text(text)) == Some(text),
        leaf_text_of(wrapped(text)) == Some(text),
{
}

/// Whether two lists of children have the same names in the same places and,
/// under each, leaves of the same text or no leaf in both.
pub open spec fn same_leaves(a: Seq<EntryView>, b: Seq<EntryView>) -> bool {
    &&& a.len() == b.len()
    &&& forall|i: int|
        0 <= i < a.len() ==> (#[trigger] a[i]).key == b[i].key && leaf_text_of(a[i].value)
            == leaf_text_of(b[i].value)
}

/// Two documents with the same names and the same texts hold the first child
/// of a wanted name at the same place.
pub proof fn lemma_same_leaves_same_place(
    a: Seq<EntryView>,
    b: Seq<EntryView>,
    wanted: spec_fn(Seq<char>) -> bool,
)
    requires
        same_leaves(a, b),
    ensures
        first_where(a, wanted) == first_where(b, wanted),
{
    assert forall|i: int| is_first_where(a, wanted, i) implies is_first_where(b, wanted, i) by {
        assert forall|j: int| 0 <= j < i implies !wanted(#[trigger] b[j].key) by {
            assert(a[j].key == b[j].key);
        }
    }
    assert forall|i: int| is_first_where(b, wanted, i) implies is_first_where(a, wanted, i) by {
        assert forall|j: int| 0 <= j < i implies !wanted(#[trigger] a[j].key) by {
            assert(a[j].key == b[j].key);
        }
    }
    if exists|i: int| is_first_where(a, wanted, i) {
        let i = choose|i: int| is_first_where(a, wanted, i);
        lemma_first_where(b, wanted, i);
    }
}

/// Whether a leaf is written bare or wrapped makes no difference to what is
/// read: two documents with the same names and the same texts give the same
/// union, the same ordinary texts and the same records, whatever the codec.
pub proof fn lemma_leaf_form_is_immaterial(
    a: Seq<EntryView>,
    b: Seq<EntryView>,
    tags: Seq<Seq<char>>,
    key: Seq<char>,
    codec: NumberCodec,
)
    requires
        same_leaves(a, b),
    ensures
        candidate_of(tags, a) == candidate_of(tags, b),
        field_text_of(a, key) == field_text_of(b, key),
        decoded_product(a, codec) == decoded_product(b, codec),
        decoded_device(a, codec) == decoded_device(b, codec),
{
    lemma_same_leaves_same_place(a, b, tagged(tags));
    lemma_same_leaves_same_place(a, b, tagged(currency_tags()));
    lemma_same_leaves_same_place(a, b, tagged(control_tags()));
    lemma_same_leaves_same_place(a, b, named(key));
    lemma_same_leaves_same_place(a, b, named(name_key()));
    lemma_same_leaves_same_place(a, b, named(sale_key()));
}

/// The children with the bare text of child `i` put into the one-field
/// wrapper.
pub open spec fn rewrapped(children: Seq<EntryView>, i: int) -> Seq<EntryView> {
    children.update(
        i,
        EntryView { key: children[i].key, value: wrapped(children[i].value->Text_0) },
    )
}

/// A document that holds a leaf as bare text and the document that holds the
/// same text under the same name in the wrapper are read as equal records and
/// as equal unions.
pub proof fn lemma_wrapping_a_leaf_changes_nothing(
    children: Seq<EntryView>,
    i: int,
    tags: Seq<Seq<char>>,
    codec: NumberCodec,
)
    requires
        0 <= i < children.len(),
        children[i].value is Text,
    ensures
        candidate_of(tags, rewrapped(children, i)) == candidate_of(tags, children),
        decoded_product(rewrapped(children, i), codec) == decoded_product(children, codec),
        decoded_device(rewrapped(children, i), codec) == decoded_device(children, codec),
{
    lemma_leaf_forms_agree(children[i].value->Text_0);
    lemma_leaf_form_is_immaterial(rewrapped(children, i), children, tags, name_key(), codec);
}

/// A part is found by its name, wherever it stands: the only child with a
/// wanted name is the one that is read, whatever comes before and after it.
pub proof fn lemma_sole_child_is_found(
    children: Seq<EntryView>,
    wanted: spec_fn(Seq<char>) -> bool,
    i: int,
)
    requires
        0 <= i < children.len(),
        wanted(children[i].key),
        forall|j: int| 0 <= j < children.len() && j != i ==> !wanted(#[trigger] children[j].key),
    ensures
        first_where(children, wanted) == Some(i),
{
    lemma_first_where(children, wanted, i);
}

/// A child whose name is wanted is, or comes after, the first such child.
pub proof fn lemma_some_where(children: Seq<EntryView>, wanted: spec_fn(Seq<char>) -> bool, j: int)
    requires
        0 <= j < children.len(),
        wanted(children[j].key),
    ensures
        first_where(children, wanted) is Some,
    decreases j,
{
    if exists|k: int| 0 <= k < j && wanted(#[trigger] children[k].key) {
        let k = choose|k: int| 0 <= k < j && wanted(#[trigger] children[k].key);
        lemma_some_where(children, wanted, k);
    } else {
        assert(is_first_where(children, wanted, j));
    }
}

/// A union is refused with `MissingVariantTag` exactly where no child is
/// named after one of its variants.
pub proof fn lemma_unknown_tags_rejected(tags: Seq<Seq<char>>, children: Seq<EntryView>)
    ensures
        candidate_of(tags, children) == Err::<CandidateView, DecodeErrorView>(
            DecodeErrorView::MissingVariantTag,
        ) <==> forall|j: int|
            0 <= j < children.len() ==> !registered(tags, #[trigger] children[j].key),
{
    let wanted = tagged(tags);
    if exists|j: int| 0 <= j < children.len() && registered(tags, #[trigger] children[j].key) {
        let j = choose|j: int|
            0 <= j < children.len() && registered(tags, #[trigger] children[j].key);
        lemma_some_where(children, wanted, j);
    }
}

/// An element whose only child has a name that is no tag is refused with
/// `MissingVariantTag`.
pub proof fn lemma_unknown_tag_rejected(tags: Seq<Seq<char>>, child: EntryView)
    requires
        !registered(tags, child.key),
    ensures
        candidate_of(tags, seq![child]) == Err::<CandidateView, DecodeErrorView>(
            DecodeErrorView::MissingVariantTag,
        ),
{
    lemma_unknown_tags_rejected(tags, seq![child]);
}

/// Empty text is no sale, whatever a reader would make of it.
pub proof fn lemma_empty_text_is_absent(reading: Option<u32>)
    ensures
        sale_from(Seq::<char>::empty(), reading) == Ok::<Option<Sale>, DecodeErrorView>(None),
{
}

/// A text in which the reader finds no number is refused with
/// `InvalidNumber`, which carries the name of the child and the text: under a
/// union's tag as in a sale that is not empty.
pub proof fn lemma_unread_text_is_invalid(candidate: CandidateView, raw: Seq<char>)
    requires
        raw.len() > 0,
    ensures
        variant_from(candidate, None) == Err::<crate::flattened::Variant, DecodeErrorView>(
            DecodeErrorView::InvalidNumber { field: candidate.key, text: candidate.text },
        ),
        currency_from(candidate, None) == Err::<Currency, DecodeErrorView>(
            DecodeErrorView::InvalidNumber { field: candidate.key, text: candidate.text },
        ),
        control_from(candidate, None) == Err::<ControlKind, DecodeErrorView>(
            DecodeErrorView::InvalidNumber { field: candidate.key, text: candidate.text },
        ),
        sale_from(raw, None) == Err::<Option<Sale>, DecodeErrorView>(
            DecodeErrorView::InvalidNumber { field: sale_key(), text: raw },
        ),
{
}

/// The child chosen for a union of distinct tags is named by the tag of its
/// variant.
pub proof fn lemma_candidate_names_its_variant(tags: Seq<Seq<char>>, children: Seq<EntryView>)
    requires
        distinct_tags(tags),
        candidate_of(tags, children) is Ok,
    ensures
        ({
            let candidate = candidate_of(tags, children)->Ok_0;
            0 <= candidate.variant < tags.len() && tags[candidate.variant] == candidate.key
        }),
{
    let i = first_candidate(tags, children)->0;
    let v = choose|v: int| 0 <= v < tags.len() && #[trigger] tags[v] == children[i].key;
    lemma_variant_of_tag(tags, v);
}

/// Where a child is chosen for the price and its text is a number, the price
/// is read: it holds that number, in the currency that the child is named
/// after.
pub proof fn lemma_chosen_price_is_read(children: Seq<EntryView>, bits: u32)
    requires
        candidate_of(currency_tags(), children) is Ok,
    ensures
        ({
            let candidate = candidate_of(currency_tags(), children)->Ok_0;
            &&& currency_from(candidate, Some(bits)) matches Ok(price)
            &&& price.bits() == bits
            &&& currency_tags()[price.index()] == candidate.key
        }),
{
    lemma_currency_tags_distinct();
    lemma_candidate_names_its_variant(currency_tags(), children);
}

/// Where a child is chosen for the control and its text is a number, the
/// control is read: it holds that number, in the kind that the child is named
/// after.
pub proof fn lemma_chosen_control_is_read(children: Seq<EntryView>, bits: u32)
    requires
        candidate_of(control_tags(), children) is Ok,
    ensures
        ({
            let candidate = candidate_of(control_tags(), children)->Ok_0;
            &&& control_from(candidate, Some(bits)) matches Ok(control)
            &&& control.bits() == bits
            &&& control_tags()[control.index()] == candidate.key
        }),
{
    lemma_control_tags_distinct();
    lemma_candidate_names_its_variant(control_tags(), children);
}

} // verus!
