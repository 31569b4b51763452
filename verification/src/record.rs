//! The two records and how each is read from, and written as, the children of
//! its element.
//!
//! A record is read in two steps. First its parts are found among the
//! children by their names, wherever they stand: this settles everything about
//! the document's structure. Then the texts of its numbers are read, and the
//! record is built from what was read.
use vstd::prelude::*;
use crate::control::{
    ControlKind, control_from, control_from_reading, control_registry, control_tags,
    serialize_control,
};
use crate::currency::{
    Currency, currency_from, currency_from_reading, currency_registry, currency_tags,
    serialize_flattened,
};
use crate::error::{DecodeError, DecodeErrorView, outcome};
use crate::flattened::{Candidate, CandidateView, candidate_of, encoded_union, locate_variant};
use crate::node::{
    Entry, EntryView, ValueNode, ValueNodeView, children_view, first_where, leaf_text,
    leaf_text_of, lemma_first_where, lemma_none_where, named,
};
use crate::number::{NumberCodec, may_read, may_render, reads_as, renders_as};
use crate::sale::{Sale, sale_from, sale_from_reading, sale_key, sale_text};
use crate::text::same_text;

verus! {

/// The name of the child that holds a record's name.
pub open spec fn name_key() -> Seq<char> {
    "Name"@
}

/// The text of the ordinary child named `key`: that of the first child of
/// that name. Without such a child the error is `StructuralError` with the
/// name; where the child is no leaf, `UnexpectedShape`.
pub open spec fn field_text_of(children: Seq<EntryView>, key: Seq<char>) -> Result<
    Seq<char>,
    DecodeErrorView,
> {
    match first_where(children, named(key)) {
        None => Err(DecodeErrorView::StructuralError(key)),
        Some(i) => match leaf_text_of(children[i].value) {
            None => Err(DecodeErrorView::UnexpectedShape),
            Some(text) => Ok(text),
        },
    }
}

/// Finds the ordinary child named `key` and takes the text of its leaf.
pub fn field_text(children: &Vec<Entry>, key: &str) -> (r: Result<String, DecodeError>)
    ensures
        outcome(r) == field_text_of(children_view(children@), key@),
{
    let ghost views = children_view(children@);
    let ghost wanted = named(key@);
    let mut i: usize = 0;
    while i < children.len()
        invariant
            i <= children.len(),
            views == children_view(children@),
            wanted == named(key@),
            forall|j: int| 0 <= j < i ==> !wanted(#[trigger] views[j].key),
        decreases children.len() - i,
    {
        let child = &children[i];
        assert(child@ == views[i as int]);
        if same_text(child.key.as_str(), key) {
            proof {
                lemma_first_where(views, wanted, i as int);
            }
            return leaf_text(&child.value);
        }
        i += 1;
    }
    proof {
        lemma_none_where(views, wanted);
    }
    Err(DecodeError::StructuralError(key.to_owned()))
}

/// A product: its name, its price in one of two currencies, and the sale on
/// it, if there is one.
#[derive(Debug, PartialEq)]
pub struct Product {
    pub name: String,
    pub price: Currency,
    pub sale: Option<Sale>,
}

pub struct ProductView {
    pub name: Seq<char>,
    pub price: Currency,
    pub sale: Option<Sale>,
}

impl View for Product {
    type V = ProductView;

    open spec fn view(&self) -> ProductView {
        ProductView { name: self.name@, price: self.price, sale: self.sale }
    }
}

/// The parts of a product as they were found among the children, with the
/// texts of its numbers still unread.
#[derive(Debug, PartialEq)]
pub struct ProductParts {
    pub name: String,
    pub price: Candidate,
    pub sale: String,
}

pub struct ProductPartsView {
    pub name: Seq<char>,
    pub price: CandidateView,
    pub sale: Seq<char>,
}

impl View for ProductParts {
    type V = ProductPartsView;

    open spec fn view(&self) -> ProductPartsView {
        ProductPartsView { name: self.name@, price: self.price@, sale: self.sale@ }
    }
}

/// The parts of the product among `children`: the text of the child `Name`,
/// the child that carries the price, and the raw text of the child `Sale`.
/// The first part that cannot be had, in this order, gives the error.
pub open spec fn product_parts_of(children: Seq<EntryView>) -> Result<
    ProductPartsView,
    DecodeErrorView,
> {
    match field_text_of(children, name_key()) {
        Err(error) => Err(error),
        Ok(name) => match candidate_of(currency_tags(), children) {
            Err(error) => Err(error),
            Ok(price) => match field_text_of(children, sale_key()) {
                Err(error) => Err(error),
                Ok(sale) => Ok(ProductPartsView { name, price, sale }),
            },
        },
    }
}

/// The product that the parts and the readings of its two numbers stand for.
/// A price that is no number gives its error before the sale is looked at.
pub open spec fn product_from(
    parts: ProductPartsView,
    price_reading: Option<u32>,
    sale_reading: Option<u32>,
) -> Result<ProductView, DecodeErrorView> {
    match currency_from(parts.price, price_reading) {
        Err(error) => Err(error),
        Ok(price) => match sale_from(parts.sale, sale_reading) {
            Err(error) => Err(error),
            Ok(sale) => Ok(ProductView { name: parts.name, price, sale }),
        },
    }
}

/// The product that `children` stand for when every text is read as the
/// codec reads it.
pub open spec fn decoded_product(children: Seq<EntryView>, codec: NumberCodec) -> Result<
    ProductView,
    DecodeErrorView,
> {
    match product_parts_of(children) {
        Err(error) => Err(error),
        Ok(parts) => product_from(
            parts,
            (codec.read)(parts.price.text),
            (codec.read)(parts.sale),
        ),
    }
}

/// Finds the parts of a product among the children of its element.
pub fn locate_product(children: &Vec<Entry>) -> (r: Result<ProductParts, DecodeError>)
    ensures
        outcome(r) == product_parts_of(children_view(children@)),
{
    let name = match field_text(children, "Name") {
        Ok(name) => name,
        Err(error) => return Err(error),
    };
    let registry = currency_registry();
    let price = match locate_variant(&registry, children) {
        Ok(price) => price,
        Err(error) => return Err(error),
    };
    let sale = match field_text(children, "Sale") {
        Ok(sale) => sale,
        Err(error) => return Err(error),
    };
    Ok(ProductParts { name, price, sale })
}

/// Builds the product from its parts and what was read from the texts of its
/// price and of its sale.
pub fn finish_product(
    parts: ProductParts,
    price_reading: Option<u32>,
    sale_reading: Option<u32>,
) -> (r: Result<Product, DecodeError>)
    ensures
        outcome(r) == product_from(parts@, price_reading, sale_reading),
{
    let price = match currency_from_reading(&parts.price, price_reading) {
        Ok(price) => price,
        Err(error) => return Err(error),
    };
    let sale = match sale_from_reading(parts.sale.as_str(), sale_reading) {
        Ok(sale) => sale,
        Err(error) => return Err(error),
    };
    Ok(Product { name: parts.name, price, sale })
}

/// Reads a product from the children of its element.
///
/// The parts are found by their names, wherever they stand among the
/// children. The reader is handed the text of the price, and then, where the
/// price is a number and the text of the sale is not empty, the text of the
/// sale. A failure in any part fails the whole record.
pub fn decode_product<F: Fn(&str) -> Option<u32>>(children: &Vec<Entry>, read: F) -> (r: Result<
    Product,
    DecodeError,
>)
    requires
        forall|s: &str| call_requires(read, (s,)),
    ensures
        match product_parts_of(children_view(children@)) {
            Err(error) => outcome(r) == Err::<ProductView, DecodeErrorView>(error),
            Ok(parts) => exists|price_reading: Option<u32>, sale_reading: Option<u32>|
                {
                    &&& may_read(read, parts.price.text, price_reading)
                    &&& price_reading is Some && parts.sale.len() > 0 ==> may_read(
                        read,
                        parts.sale,
                        sale_reading,
                    )
                    &&& outcome(r) == product_from(parts, price_reading, sale_reading)
                },
        },
        forall|codec: NumberCodec| #[trigger]
            reads_as(read, codec) ==> outcome(r) == decoded_product(
                children_view(children@),
                codec,
            ),
{
    let parts = match locate_product(children) {
        Ok(parts) => parts,
        Err(error) => return Err(error),
    };
    let ghost found = parts@;
    let price_reading = read(parts.price.text.as_str());
    let sale_reading = if price_reading.is_some() && !parts.sale.as_str().is_empty() {
        read(parts.sale.as_str())
    } else {
        None
    };
    let r = finish_product(parts, price_reading, sale_reading);
    proof {
        let chosen = product_parts_of(children_view(children@))->Ok_0;
        assert(chosen == found);
        assert({
            &&& may_read(read, chosen.price.text, price_reading)
            &&& price_reading is Some && chosen.sale.len() > 0 ==> may_read(
                read,
                chosen.sale,
                sale_reading,
            )
            &&& outcome(r) == product_from(chosen, price_reading, sale_reading)
        });
        assert forall|codec: NumberCodec| #[trigger] reads_as(read, codec) implies outcome(r)
            == decoded_product(children_view(children@), codec) by {
            assert(price_reading == (codec.read)(chosen.price.text));
            if price_reading is Some && chosen.sale.len() > 0 {
                assert(sale_reading == (codec.read)(chosen.sale));
            }
        }
    }
    r
}

/// What a product is written as: the child `Name` with the name, the child
/// that stands for the price, and the child `Sale`, each holding bare text,
/// in this order.
pub open spec fn product_children(
    product: ProductView,
    price_text: Seq<char>,
    sale_text: Seq<char>,
) -> Seq<EntryView> {
    seq![
        EntryView { key: name_key(), value: ValueNodeView::Text(product.name) },
        encoded_union(currency_tags(), product.price.index(), price_text).unwrap(),
        EntryView { key: sale_key(), value: ValueNodeView::Text(sale_text) },
    ]
}

/// The children that a product is written as when every number is rendered
/// as the codec renders it.
pub open spec fn encoded_product(product: ProductView, codec: NumberCodec) -> Seq<EntryView> {
    product_children(
        product,
        (codec.render)(product.price.bits()),
        match product.sale {
            None => Seq::empty(),
            Some(Sale(bits)) => (codec.render)(bits),
        },
    )
}

/// Writes a product as the children of its element. The text of the price is
/// what the renderer makes of its payload; that of the sale is empty where
/// there is none, else what the renderer makes of it.
pub fn encode_product<G: Fn(u32) -> String>(product: &Product, render: G) -> (children: Vec<
    Entry,
>)
    requires
        forall|b: u32| call_requires(render, (b,)),
    ensures
        exists|price_text: Seq<char>, sale_text: Seq<char>|
            {
                &&& may_render(render, product.price.bits(), price_text)
                &&& match product.sale {
                    None => sale_text.len() == 0,
                    Some(Sale(bits)) => may_render(render, bits, sale_text),
                }
                &&& children_view(children@) == product_children(product@, price_text, sale_text)
            },
        forall|codec: NumberCodec| #[trigger]
            renders_as(render, codec) ==> children_view(children@) == encoded_product(
                product@,
                codec,
            ),
{
    let price = serialize_flattened(&product.price, &render);
    let sale = sale_text(&product.sale, &render);
    let ghost price_text = choose|text: Seq<char>|
        may_render(&render, product.price.bits(), text) && Some(price@) == encoded_union(
            currency_tags(),
            product.price.index(),
            text,
        );
    let ghost sale_text = sale@;
    let mut children: Vec<Entry> = Vec::new();
    children.push(Entry { key: "Name".to_owned(), value: ValueNode::Text(product.name.clone()) });
    children.push(price);
    children.push(Entry { key: "Sale".to_owned(), value: ValueNode::Text(sale) });
    proof {
        assert(children_view(children@) =~= product_children(product@, price_text, sale_text));
        assert({
            &&& may_render(render, product.price.bits(), price_text)
            &&& match product.sale {
                None => sale_text.len() == 0,
                Some(Sale(bits)) => may_render(render, bits, sale_text),
            }
            &&& children_view(children@) == product_children(product@, price_text, sale_text)
        });
        assert forall|codec: NumberCodec| #[trigger] renders_as(render, codec) implies children_view(
            children@,
        ) == encoded_product(product@, codec) by {
            assert(price_text == (codec.render)(product.price.bits()));
            match product.sale {
                None => {
                    assert(sale_text =~= Seq::<char>::empty());
                },
                Some(Sale(bits)) => {
                    assert(sale_text == (codec.render)(bits));
                },
            }
        }
    }
    children
}

/// A device: its name and how it is controlled.
#[derive(Debug, PartialEq)]
pub struct DeviceRecord {
    pub name: String,
    pub control: ControlKind,
}

pub struct DeviceRecordView {
    pub name: Seq<char>,
    pub control: ControlKind,
}

impl View for DeviceRecord {
    type V = DeviceRecordView;

    open spec fn view(&self) -> DeviceRecordView {
        DeviceRecordView { name: self.name@, control: self.control }
    }
}

/// The parts of a device as they were found among the children, with the text
/// of its number still unread.
#[derive(Debug, PartialEq)]
pub struct DeviceParts {
    pub name: String,
    pub control: Candidate,
}

pub struct DevicePartsView {
    pub name: Seq<char>,
    pub control: CandidateView,
}

impl View for DeviceParts {
    type V = DevicePartsView;

    open spec fn view(&self) -> DevicePartsView {
        DevicePartsView { name: self.name@, control: self.control@ }
    }
}

/// The parts of the device among `children`: the text of the child `Name` and
/// the child that carries the control. The first part that cannot be had, in
/// this order, gives the error.
pub open spec fn device_parts_of(children: Seq<EntryView>) -> Result<
    DevicePartsView,
    DecodeErrorView,
> {
    match field_text_of(children, name_key()) {
        Err(error) => Err(error),
        Ok(name) => match candidate_of(control_tags(), children) {
            Err(error) => Err(error),
            Ok(control) => Ok(DevicePartsView { name, control }),
        },
    }
}

/// The device that the parts and the reading of its number stand for.
pub open spec fn device_from(parts: DevicePartsView, reading: Option<u32>) -> Result<
    DeviceRecordView,
    DecodeErrorView,
> {
    match control_from(parts.control, reading) {
        Err(error) => Err(error),
        Ok(control) => Ok(DeviceRecordView { name: parts.name, control }),
    }
}

/// The device that `children` stand for when the text of the control is read
/// as the codec reads it.
pub open spec fn decoded_device(children: Seq<EntryView>, codec: NumberCodec) -> Result<
    DeviceRecordView,
    DecodeErrorView,
> {
    match device_parts_of(children) {
        Err(error) => Err(error),
        Ok(parts) => device_from(parts, (codec.read)(parts.control.text)),
    }
}

/// Finds the parts of a device among the children of its element.
pub fn locate_device(children: &Vec<Entry>) -> (r: Result<DeviceParts, DecodeError>)
    ensures
        outcome(r) == device_parts_of(children_view(children@)),
{
    let name = match field_text(children, "Name") {
        Ok(name) => name,
        Err(error) => return Err(error),
    };
    let registry = control_registry();
    let control = match locate_variant(&registry, children) {
        Ok(control) => control,
        Err(error) => return Err(error),
    };
    Ok(DeviceParts { name, control })
}

/// Builds the device from its parts and what was read from the text of its
/// control.
pub fn finish_device(parts: DeviceParts, reading: Option<u32>) -> (r: Result<
    DeviceRecord,
    DecodeError,
>)
    ensures
        outcome(r) == device_from(parts@, reading),
{
    match control_from_reading(&parts.control, reading) {
        Ok(control) => Ok(DeviceRecord { name: parts.name, control }),
        Err(error) => Err(error),
    }
}

/// Reads a device from the children of its element.
///
/// The parts are found by their names, wherever they stand among the
/// children; the reader is handed the text of the control and nothing else.
pub fn decode_device<F: Fn(&str) -> Option<u32>>(children: &Vec<Entry>, read: F) -> (r: Result<
    DeviceRecord,
    DecodeError,
>)
    requires
        forall|s: &str| call_requires(read, (s,)),
    ensures
        match device_parts_of(children_view(children@)) {
            Err(error) => outcome(r) == Err::<DeviceRecordView, DecodeErrorView>(error),
            Ok(parts) => exists|reading: Option<u32>|
                may_read(read, parts.control.text, reading) && outcome(r) == device_from(
                    parts,
                    reading,
                ),
        },
        forall|codec: NumberCodec| #[trigger]
            reads_as(read, codec) ==> outcome(r) == decoded_device(
                children_view(children@),
                codec,
            ),
{
    let parts = match locate_device(children) {
        Ok(parts) => parts,
        Err(error) => return Err(error),
    };
    let ghost found = parts@;
    let reading = read(parts.control.text.as_str());
    let r = finish_device(parts, reading);
    proof {
        let chosen = device_parts_of(children_view(children@))->Ok_0;
        assert(chosen == found);
        assert(may_read(read, chosen.control.text, reading) && outcome(r) == device_from(
            chosen,
            reading,
        ));
        assert forall|codec: NumberCodec| #[trigger] reads_as(read, codec) implies outcome(r)
            == decoded_device(children_view(children@), codec) by {
            assert(reading == (codec.read)(chosen.control.text));
        }
    }
    r
}

/// What a device is written as: the child `Name` with the name, then the
/// child that stands for the control, each holding bare text.
pub open spec fn device_children(device: DeviceRecordView, control_text: Seq<char>) -> Seq<
    EntryView,
> {
    seq![
        EntryView { key: name_key(), value: ValueNodeView::Text(device.name) },
        encoded_union(control_tags(), device.control.index(), control_text).unwrap(),
    ]
}

/// The children that a device is written as when its number is rendered as
/// the codec renders it.
pub open spec fn encoded_device(device: DeviceRecordView, codec: NumberCodec) -> Seq<EntryView> {
    device_children(device, (codec.render)(device.control.bits()))
}

/// Writes a device as the children of its element. The text of the control is
/// what the renderer makes of its payload.
pub fn encode_device<G: Fn(u32) -> String>(device: &DeviceRecord, render: G) -> (children: Vec<
    Entry,
>)
    requires
        forall|b: u32| call_requires(render, (b,)),
    ensures
        exists|control_text: Seq<char>|
            may_render(render, device.control.bits(), control_text) && children_view(children@)
                == device_children(device@, control_text),
        forall|codec: NumberCodec| #[trigger]
            renders_as(render, codec) ==> children_view(children@) == encoded_device(
                device@,
                codec,
            ),
{
    let control = serialize_control(&device.control, &render);
    let ghost control_text = choose|text: Seq<char>|
        may_render(&render, device.control.bits(), text) && Some(control@) == encoded_union(
            control_tags(),
            device.control.index(),
            text,
        );
    let mut children: Vec<Entry> = Vec::new();
    children.push(Entry { key: "Name".to_owned(), value: ValueNode::Text(device.name.clone()) });
    children.push(control);
    proof {
        assert(children_view(children@) =~= device_children(device@, control_text));
        assert(may_render(render, device.control.bits(), control_text) && children_view(children@)
            == device_children(device@, control_text));
        assert forall|codec: NumberCodec| #[trigger] renders_as(render, codec) implies children_view(
            children@,
        ) == encoded_device(device@, codec) by {
            assert(control_text == (codec.render)(device.control.bits()));
        }
    }
    children
}

} // verus!
