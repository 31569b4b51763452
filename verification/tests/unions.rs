use xml_tagged_union::control::{
    control_from_reading, control_registry, deserialize_control, serialize_control, ControlKind,
};
use xml_tagged_union::currency::{
    currency_from_reading, currency_registry, deserialize_flattened, serialize_flattened, Currency,
};
use xml_tagged_union::error::DecodeError;
use xml_tagged_union::flattened::{
    decode_union, encode_union, finish_variant, locate_variant, Candidate, Variant,
};
use xml_tagged_union::node::{leaf_form, leaf_text, Entry, Field, LeafText, ValueNode};
use xml_tagged_union::number::{checked_number, format_leaf, parse_leaf};
use xml_tagged_union::registry::Registry;
use xml_tagged_union::sale::{parse_sale_or_empty_string, sale_from_reading, sale_text, Sale};
use xml_tagged_union::text::same_text;

fn read_number(text: &str) -> Option<u32> {
    text.parse::<f32>().ok().map(f32::to_bits)
}

fn render_number(bits: u32) -> String {
    f32::from_bits(bits).to_string()
}

fn bits(x: f32) -> u32 {
    x.to_bits()
}

fn text(key: &str, value: &str) -> Entry {
    Entry { key: key.to_string(), value: ValueNode::Text(value.to_string()) }
}

fn field(name: &str, value: Option<&str>) -> Field {
    Field { name: name.to_string(), text: value.map(str::to_string) }
}

fn fields(key: &str, fields: Vec<Field>) -> Entry {
    Entry { key: key.to_string(), value: ValueNode::Fields(fields) }
}

#[test]
fn power_is_read_from_its_child() {
    let children = vec![text("Name", "MyDevice"), text("Power", "3.5")];
    assert_eq!(deserialize_control(&children, read_number), Ok(ControlKind::Power(bits(3.5))));
}

#[test]
fn voltage_reads_the_same_bare_and_wrapped() {
    let bare = vec![text("Voltage", "2.0")];
    let wrapped = vec![fields("Voltage", vec![field("$text", Some("2.0"))])];
    assert_eq!(deserialize_control(&bare, read_number), Ok(ControlKind::Voltage(bits(2.0))));
    assert_eq!(deserialize_control(&wrapped, read_number), Ok(ControlKind::Voltage(bits(2.0))));
}

#[test]
fn unregistered_tag_is_rejected() {
    let children = vec![text("Wattage", "9.0")];
    assert_eq!(deserialize_control(&children, read_number), Err(DecodeError::MissingVariantTag));
    assert_eq!(deserialize_flattened(&children, read_number), Err(DecodeError::MissingVariantTag));
}

#[test]
fn no_children_means_no_tag() {
    let children: Vec<Entry> = Vec::new();
    assert_eq!(deserialize_flattened(&children, read_number), Err(DecodeError::MissingVariantTag));
    assert_eq!(deserialize_control(&children, read_number), Err(DecodeError::MissingVariantTag));
}

#[test]
fn tags_are_matched_exactly() {
    for name in ["dollars", "DOLLARS", "Dollar", "Dollars ", " Euros", "euros", ""] {
        let children = vec![text(name, "1.0")];
        assert_eq!(
            deserialize_flattened(&children, read_number),
            Err(DecodeError::MissingVariantTag)
        );
    }
}

#[test]
fn first_registered_child_wins() {
    let children = vec![text("Euros", "1.5"), text("Dollars", "2.5")];
    assert_eq!(deserialize_flattened(&children, read_number), Ok(Currency::Euros(bits(1.5))));
    let children = vec![text("Dollars", "2.5"), text("Euros", "1.5")];
    assert_eq!(deserialize_flattened(&children, read_number), Ok(Currency::Dollars(bits(2.5))));
    let children = vec![text("Dollars", "2.5"), text("Dollars", "4.5")];
    assert_eq!(deserialize_flattened(&children, read_number), Ok(Currency::Dollars(bits(2.5))));
}

#[test]
fn later_candidates_are_not_looked_at() {
    let children = vec![text("Euros", "1.5"), text("Dollars", "abc"), fields("Euros", vec![])];
    assert_eq!(deserialize_flattened(&children, read_number), Ok(Currency::Euros(bits(1.5))));
    let children = vec![text("Euros", "abc"), text("Dollars", "2.5")];
    assert_eq!(
        deserialize_flattened(&children, read_number),
        Err(DecodeError::InvalidNumber { field: "Euros".to_string(), text: "abc".to_string() })
    );
}

#[test]
fn unregistered_children_before_the_tag_are_skipped() {
    let children = vec![
        fields("Wattage", vec![field("a", None), field("b", None)]),
        text("Name", "x"),
        text("Power", "7"),
    ];
    assert_eq!(deserialize_control(&children, read_number), Ok(ControlKind::Power(bits(7.0))));
}

#[test]
fn non_numeric_leaf_is_rejected() {
    let children = vec![text("Voltage", "abc")];
    assert_eq!(
        deserialize_control(&children, read_number),
        Err(DecodeError::InvalidNumber { field: "Voltage".to_string(), text: "abc".to_string() })
    );
    let children = vec![text("Dollars", "abc")];
    assert_eq!(
        deserialize_flattened(&children, read_number),
        Err(DecodeError::InvalidNumber { field: "Dollars".to_string(), text: "abc".to_string() })
    );
    assert_eq!(
        parse_sale_or_empty_string("abc", read_number),
        Err(DecodeError::InvalidNumber { field: "Sale".to_string(), text: "abc".to_string() })
    );
    assert_eq!(
        parse_leaf("Power", "abc", read_number),
        Err(DecodeError::InvalidNumber { field: "Power".to_string(), text: "abc".to_string() })
    );
}

#[test]
fn empty_text_under_a_tag_is_no_number() {
    let children = vec![text("Dollars", "")];
    assert_eq!(
        deserialize_flattened(&children, read_number),
        Err(DecodeError::InvalidNumber { field: "Dollars".to_string(), text: String::new() })
    );
}

#[test]
fn other_shapes_are_unexpected() {
    let shapes = vec![
        vec![],
        vec![field("$text", None)],
        vec![field("text", Some("1.0"))],
        vec![field("$Text", Some("1.0"))],
        vec![field("$text", Some("1.0")), field("$text", Some("1.0"))],
        vec![field("$text", Some("1.0")), field("unit", Some("V"))],
        vec![field("unit", Some("V")), field("$text", Some("1.0"))],
    ];
    for shape in shapes {
        let node = ValueNode::Fields(shape);
        assert_eq!(leaf_form(&node), Err(DecodeError::UnexpectedShape));
        assert_eq!(leaf_text(&node), Err(DecodeError::UnexpectedShape));
        let children = vec![Entry { key: "Voltage".to_string(), value: node }];
        assert_eq!(deserialize_control(&children, read_number), Err(DecodeError::UnexpectedShape));
    }
}

#[test]
fn leaf_forms_are_told_apart_and_give_the_same_text() {
    let bare = ValueNode::Text("2.0".to_string());
    let wrapped = ValueNode::Fields(vec![field("$text", Some("2.0"))]);
    assert_eq!(leaf_form(&bare), Ok(LeafText::PlainText("2.0".to_string())));
    assert_eq!(leaf_form(&wrapped), Ok(LeafText::WrappedText("2.0".to_string())));
    assert_eq!(leaf_text(&bare), Ok("2.0".to_string()));
    assert_eq!(leaf_text(&wrapped), Ok("2.0".to_string()));
    assert_eq!(LeafText::PlainText("a".to_string()).into_text(), "a");
    assert_eq!(LeafText::WrappedText("b".to_string()).into_text(), "b");
}

#[test]
fn empty_sale_text_is_absent() {
    assert_eq!(parse_sale_or_empty_string("", read_number), Ok(None));
    assert_eq!(parse_sale_or_empty_string("", |_: &str| Some(7u32)), Ok(None));
    assert_eq!(sale_from_reading("", Some(7)), Ok(None));
    assert_eq!(sale_from_reading("", None), Ok(None));
}

#[test]
fn sale_text_is_read_as_a_number() {
    assert_eq!(parse_sale_or_empty_string("25.5", read_number), Ok(Some(Sale(bits(25.5)))));
    assert_eq!(parse_sale_or_empty_string("-1e2", read_number), Ok(Some(Sale(bits(-100.0)))));
    assert_eq!(sale_from_reading("25.5", Some(bits(25.5))), Ok(Some(Sale(bits(25.5)))));
    assert_eq!(
        sale_from_reading("25.5", None),
        Err(DecodeError::InvalidNumber { field: "Sale".to_string(), text: "25.5".to_string() })
    );
    assert_eq!(
        parse_sale_or_empty_string(" ", read_number),
        Err(DecodeError::InvalidNumber { field: "Sale".to_string(), text: " ".to_string() })
    );
}

#[test]
fn sale_is_written_empty_or_as_its_number() {
    assert_eq!(sale_text(&None, render_number), "");
    assert_eq!(sale_text(&Some(Sale(bits(25.5))), render_number), "25.5");
    assert_eq!(sale_text(&Some(Sale(bits(25.0))), render_number), "25");
}

#[test]
fn union_is_written_as_one_bare_child() {
    assert_eq!(serialize_flattened(&Currency::Dollars(bits(6.0)), render_number), text("Dollars", "6"));
    assert_eq!(serialize_flattened(&Currency::Euros(bits(3.5)), render_number), text("Euros", "3.5"));
    assert_eq!(serialize_control(&ControlKind::Voltage(bits(2.5)), render_number), text("Voltage", "2.5"));
    assert_eq!(serialize_control(&ControlKind::Power(bits(3.5)), render_number), text("Power", "3.5"));
    assert_eq!(
        serialize_flattened(&Currency::Dollars(bits(350000000.0)), render_number),
        text("Dollars", "350000000")
    );
}

#[test]
fn written_union_is_read_back() {
    for value in [Currency::Dollars(bits(0.1)), Currency::Euros(bits(-7.25))] {
        let child = serialize_flattened(&value, render_number);
        assert_eq!(deserialize_flattened(&vec![child], read_number), Ok(value));
    }
    for value in [ControlKind::Voltage(bits(2.0)), ControlKind::Power(bits(1.0e-3))] {
        let child = serialize_control(&value, render_number);
        assert_eq!(deserialize_control(&vec![child], read_number), Ok(value));
    }
}

#[test]
fn variants_are_known_by_their_place() {
    assert_eq!(Currency::Dollars(5).variant(), Variant { index: 0, payload: 5 });
    assert_eq!(Currency::Euros(6).variant(), Variant { index: 1, payload: 6 });
    assert_eq!(ControlKind::Voltage(7).variant(), Variant { index: 0, payload: 7 });
    assert_eq!(ControlKind::Power(8).variant(), Variant { index: 1, payload: 8 });
    assert_eq!(Currency::from_variant(Variant { index: 0, payload: 5 }), Some(Currency::Dollars(5)));
    assert_eq!(Currency::from_variant(Variant { index: 1, payload: 6 }), Some(Currency::Euros(6)));
    assert_eq!(Currency::from_variant(Variant { index: 2, payload: 6 }), None);
    assert_eq!(ControlKind::from_variant(Variant { index: 0, payload: 7 }), Some(ControlKind::Voltage(7)));
    assert_eq!(ControlKind::from_variant(Variant { index: 1, payload: 8 }), Some(ControlKind::Power(8)));
    assert_eq!(ControlKind::from_variant(Variant { index: usize::MAX, payload: 8 }), None);
}

#[test]
fn fixed_registries_list_the_tags_in_order() {
    let currency = currency_registry();
    assert_eq!(currency.len(), 2);
    assert_eq!(currency.tag(0), Some("Dollars"));
    assert_eq!(currency.tag(1), Some("Euros"));
    assert_eq!(currency.tag(2), None);
    assert_eq!(currency.resolve("Dollars"), Some(0));
    assert_eq!(currency.resolve("Euros"), Some(1));
    assert_eq!(currency.resolve("Voltage"), None);
    let control = control_registry();
    assert_eq!(control.len(), 2);
    assert_eq!(control.tag(0), Some("Voltage"));
    assert_eq!(control.tag(1), Some("Power"));
    assert_eq!(control.resolve("Voltage"), Some(0));
    assert_eq!(control.resolve("Power"), Some(1));
    assert_eq!(control.resolve("power"), None);
    assert_eq!(control.resolve("Euros"), None);
}

#[test]
fn registry_refuses_a_tag_that_occurs_twice() {
    let tags = |names: &[&str]| names.iter().map(|n| n.to_string()).collect::<Vec<String>>();
    assert!(Registry::new(tags(&["A", "B", "A"])).is_none());
    assert!(Registry::new(tags(&["A", "A"])).is_none());
    assert!(Registry::new(tags(&["B", "C", "C"])).is_none());
    let registry = Registry::new(tags(&["A", "a", "B"])).unwrap();
    assert_eq!(registry.len(), 3);
    assert_eq!(registry.resolve("a"), Some(1));
    assert_eq!(registry.resolve("b"), None);
    assert_eq!(registry.tag(2), Some("B"));
    let empty = Registry::new(Vec::new()).unwrap();
    assert_eq!(empty.len(), 0);
    assert_eq!(empty.resolve("A"), None);
    assert_eq!(empty.tag(0), None);
}

#[test]
fn union_of_any_registry_is_read_and_written() {
    let registry =
        Registry::new(vec!["Red".to_string(), "Green".to_string(), "Blue".to_string()]).unwrap();
    let children = vec![text("Name", "x"), text("Blue", "0.5"), text("Red", "1")];
    assert_eq!(
        locate_variant(&registry, &children),
        Ok(Candidate { variant: 2, key: "Blue".to_string(), text: "0.5".to_string() })
    );
    assert_eq!(
        decode_union(&registry, &children, read_number),
        Ok(Variant { index: 2, payload: bits(0.5) })
    );
    assert_eq!(
        encode_union(&registry, Variant { index: 1, payload: bits(0.25) }, render_number),
        Some(text("Green", "0.25"))
    );
    assert_eq!(encode_union(&registry, Variant { index: 3, payload: 0 }, render_number), None);
    assert_eq!(decode_union(&registry, &vec![text("Dollars", "1")], read_number), Err(DecodeError::MissingVariantTag));
}

#[test]
fn candidate_and_reading_give_the_value() {
    let candidate = Candidate { variant: 1, key: "Euros".to_string(), text: "3.5".to_string() };
    assert_eq!(finish_variant(&candidate, Some(9)), Ok(Variant { index: 1, payload: 9 }));
    assert_eq!(
        finish_variant(&candidate, None),
        Err(DecodeError::InvalidNumber { field: "Euros".to_string(), text: "3.5".to_string() })
    );
    assert_eq!(currency_from_reading(&candidate, Some(9)), Ok(Currency::Euros(9)));
    assert_eq!(control_from_reading(&candidate, Some(9)), Ok(ControlKind::Power(9)));
    assert_eq!(
        currency_from_reading(&candidate, None),
        Err(DecodeError::InvalidNumber { field: "Euros".to_string(), text: "3.5".to_string() })
    );
}

#[test]
fn leaf_numbers_are_read_and_written_by_the_callers_codec() {
    assert_eq!(parse_leaf("Power", "3.5", read_number), Ok(bits(3.5)));
    assert_eq!(parse_leaf("Power", "+3.5e0", read_number), Ok(bits(3.5)));
    assert_eq!(parse_leaf("Power", "-.5", read_number), Ok(bits(-0.5)));
    assert_eq!(format_leaf(bits(3.5), render_number), "3.5");
    assert_eq!(format_leaf(bits(2.0), render_number), "2");
    assert_eq!(checked_number("Power", "3.5", Some(1)), Ok(1));
    assert_eq!(
        checked_number("Power", "x", None),
        Err(DecodeError::InvalidNumber { field: "Power".to_string(), text: "x".to_string() })
    );
    for x in [0.1f32, 1.0 / 3.0, 16777217.0, 1.17549435e-38, 6.0] {
        assert_eq!(parse_leaf("f", &format_leaf(bits(x), render_number), read_number), Ok(bits(x)));
    }
}

#[test]
fn texts_are_compared_letter_for_letter() {
    assert!(same_text("", ""));
    assert!(same_text("Dollars", "Dollars"));
    assert!(!same_text("Dollars", "dollars"));
    assert!(!same_text("Dollars", "Dollar"));
    assert!(!same_text("Dollar", "Dollars"));
    assert!(same_text("Größe €", "Größe €"));
    assert!(!same_text("Größe", "Grösse"));
    assert!(!same_text("é", "e\u{301}"));
}

#[test]
fn errors_are_put_in_words() {
    assert_eq!(DecodeError::MissingVariantTag.message(), "no child is named after a variant");
    assert_eq!(DecodeError::UnexpectedShape.message(), "child holds neither text nor wrapped text");
    assert_eq!(
        DecodeError::InvalidNumber { field: "Sale".to_string(), text: "abc".to_string() }.message(),
        "invalid number in Sale: abc"
    );
    assert_eq!(
        DecodeError::IOError("no such file".to_string()).message(),
        "input or output failed: no such file"
    );
    assert_eq!(
        DecodeError::StructuralError("Name".to_string()).message(),
        "malformed document: Name"
    );
}
