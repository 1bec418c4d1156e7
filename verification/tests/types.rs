use blextism::model::{CollectionInterface, Decoder, Element, Shape, TypeExpr};
use blextism::registry::DefinedCollections;
use blextism::schema::{BpyProperty, BpyPropertyArray, BpyPropertyItem, BpyPropertyNumber};

fn shared(identifier: &str) -> BpyPropertyItem {
    BpyPropertyItem {
        identifier: identifier.to_string(),
        description: None,
        is_required: true,
        is_runtime: false,
        is_output: false,
        is_never_none: true,
    }
}

fn range(hard_min: i64, soft_min: i64) -> BpyPropertyNumber {
    BpyPropertyNumber { hard_min, hard_max: 100, soft_min, soft_max: 100 }
}

fn extent() -> BpyPropertyArray {
    BpyPropertyArray { dimensions: [3, 0, 0], length: 3 }
}

fn read(property: &BpyProperty) -> TypeExpr {
    let mut extra = Vec::new();
    let mut defined = DefinedCollections::new();
    property.as_return_type(&mut extra, &mut defined)
}

fn plain(shape: Shape) -> TypeExpr {
    TypeExpr { shape, nullable: false }
}

#[test]
fn integer_is_unsigned_only_when_both_lower_bounds_are_zero() {
    let cases = [
        (0, 0, Element::Unsigned),
        (0, 1, Element::Signed),
        (1, 0, Element::Signed),
        (1, 1, Element::Signed),
        (-1, 0, Element::Signed),
        (0, -1, Element::Signed),
        (-5, -5, Element::Signed),
        (i64::MIN, 0, Element::Signed),
        (0, i64::MAX, Element::Signed),
    ];
    for (hard_min, soft_min, expected) in cases {
        let number = range(hard_min, soft_min);
        assert_eq!(number.is_unsigned(), expected == Element::Unsigned);
        let scalar = BpyProperty::Int { item: shared("count"), number };
        assert_eq!(read(&scalar), plain(Shape::Scalar(expected)));
        assert_eq!(scalar.as_setter_parameter_type(), plain(Shape::Scalar(expected)));
        assert_eq!(scalar.as_method_parameter().ty, plain(Shape::Scalar(expected)));
        let array = BpyProperty::IntArray { item: shared("counts"), array: extent(), number };
        assert_eq!(read(&array), plain(Shape::Sequence(expected)));
        assert_eq!(array.as_setter_parameter_type(), plain(Shape::Slice(expected)));
        assert_eq!(array.as_method_parameter().ty, plain(Shape::Slice(expected)));
    }
}

#[test]
fn upper_bounds_do_not_decide_the_sign() {
    let number = BpyPropertyNumber { hard_min: 0, hard_max: -3, soft_min: 0, soft_max: -7 };
    assert!(number.is_unsigned());
}

#[test]
fn every_kind_has_its_read_and_write_type() {
    let boolean = BpyProperty::Boolean { item: shared("flag") };
    assert_eq!(read(&boolean), plain(Shape::Scalar(Element::Bool)));
    assert_eq!(boolean.as_setter_parameter_type(), plain(Shape::Scalar(Element::Bool)));

    let booleans = BpyProperty::BooleanArray { item: shared("flags"), array: extent() };
    assert_eq!(read(&booleans), plain(Shape::Sequence(Element::Bool)));
    assert_eq!(booleans.as_setter_parameter_type(), plain(Shape::Slice(Element::Bool)));

    let float = BpyProperty::Float { item: shared("energy") };
    assert_eq!(read(&float), plain(Shape::Scalar(Element::Float)));
    assert_eq!(float.as_setter_parameter_type(), plain(Shape::Scalar(Element::Float)));

    let floats = BpyProperty::FloatArray { item: shared("location"), array: extent() };
    assert_eq!(read(&floats), plain(Shape::Sequence(Element::Float)));
    assert_eq!(floats.as_setter_parameter_type(), plain(Shape::Slice(Element::Float)));

    let text = BpyProperty::String { item: shared("name"), length_max: 64, default: None };
    assert_eq!(read(&text), plain(Shape::Text));
    assert_eq!(text.as_setter_parameter_type(), plain(Shape::TextView));

    let pointer = BpyProperty::Pointer { item: shared("world"), fixed_type: "World".to_string() };
    assert_eq!(read(&pointer), plain(Shape::Object("World".to_string())));
    assert_eq!(pointer.as_setter_parameter_type(), plain(Shape::Handle));
}

#[test]
fn an_enumeration_parameter_travels_as_text() {
    let choice = BpyProperty::Enum { item: shared("mode"), items: Vec::new() };
    assert_eq!(read(&choice), plain(Shape::Text));
    assert_eq!(choice.as_method_parameter().ty, plain(Shape::TextView));
    assert_eq!(choice.as_parsed_intermediate_value(), Decoder::Direct);
}

#[test]
fn nullability_follows_never_none_for_properties() {
    let mut item = shared("flag");
    item.is_never_none = false;
    item.is_required = true;
    let boolean = BpyProperty::Boolean { item };
    assert_eq!(read(&boolean), TypeExpr { shape: Shape::Scalar(Element::Bool), nullable: true });
    assert_eq!(
        boolean.as_setter_parameter_type(),
        TypeExpr { shape: Shape::Scalar(Element::Bool), nullable: true }
    );
    assert_eq!(boolean.as_method_parameter().ty, plain(Shape::Scalar(Element::Bool)));
}

#[test]
fn nullability_follows_required_for_parameters() {
    let mut item = shared("flag");
    item.is_never_none = true;
    item.is_required = false;
    let boolean = BpyProperty::Boolean { item };
    assert_eq!(
        boolean.as_method_parameter().ty,
        TypeExpr { shape: Shape::Scalar(Element::Bool), nullable: true }
    );
    assert_eq!(read(&boolean), plain(Shape::Scalar(Element::Bool)));
}

#[test]
fn object_types_are_named_in_upper_camel_case() {
    let pointer =
        BpyProperty::Pointer { item: shared("settings"), fixed_type: "image_format_settings".to_string() };
    assert_eq!(read(&pointer), plain(Shape::Object("ImageFormatSettings".to_string())));
    assert_eq!(
        pointer.as_parsed_intermediate_value(),
        Decoder::Handle { interface: "ImageFormatSettings".to_string(), nullable: false }
    );
}

#[test]
fn parameters_are_named_in_snake_case() {
    let boolean = BpyProperty::Boolean { item: shared("useSelf") };
    assert_eq!(boolean.as_method_parameter().name, "use_self");
    let reserved = BpyProperty::Boolean { item: shared("TYPE") };
    assert_eq!(reserved.as_method_parameter().name, "r#type");
}

#[test]
fn accessors_keep_the_identifier() {
    let boolean = BpyProperty::Boolean { item: shared("hide_select") };
    assert_eq!(boolean.as_getter_attr_name(), "hide_select");
    assert_eq!(boolean.as_setter_attr_name(), "set_hide_select");
    let reserved = BpyProperty::Boolean { item: shared("type") };
    assert_eq!(reserved.as_getter_attr_name(), "r#type");
    assert_eq!(reserved.as_setter_attr_name(), "set_type");
    assert!(!boolean.is_output());
    assert_eq!(boolean.as_item().identifier, "hide_select");
}

#[test]
fn a_collection_is_keyed_by_its_element_class() {
    let collection = BpyProperty::Collection {
        item: shared("objects"),
        fixed_type: "Object".to_string(),
        collection: None,
    };
    let mut extra = Vec::new();
    let mut defined = DefinedCollections::new();
    let ty = collection.as_return_type(&mut extra, &mut defined);
    assert_eq!(ty, plain(Shape::Object("BpyPropCollectionObject".to_string())));
    assert_eq!(
        extra,
        vec![CollectionInterface {
            key: "Object".to_string(),
            name: "BpyPropCollectionObject".to_string(),
            element: "Object".to_string(),
        }]
    );
    assert!(defined.contains("Object"));
    assert!(!defined.contains("BpyPropCollectionObject"));
    assert_eq!(
        collection.as_parsed_intermediate_value(),
        Decoder::Handle { interface: "BpyPropCollectionObject".to_string(), nullable: false }
    );
}

#[test]
fn a_specialised_collection_is_keyed_by_its_specialisation() {
    let collection = BpyProperty::Collection {
        item: shared("objects"),
        fixed_type: "Object".to_string(),
        collection: Some("BlendDataObjects".to_string()),
    };
    let mut extra = Vec::new();
    let mut defined = DefinedCollections::new();
    let ty = collection.as_return_type(&mut extra, &mut defined);
    assert_eq!(ty, plain(Shape::Object("BpyPropCollectionBlendDataObjects".to_string())));
    assert_eq!(extra.len(), 1);
    assert_eq!(extra[0].key, "BlendDataObjects");
    assert_eq!(extra[0].name, "BpyPropCollectionBlendDataObjects");
    assert_eq!(extra[0].element, "Object");
    assert!(defined.contains("BlendDataObjects"));
    assert!(!defined.contains("Object"));
}

#[test]
fn a_second_request_for_a_key_emits_nothing() {
    let first = BpyProperty::Collection {
        item: shared("objects"),
        fixed_type: "Object".to_string(),
        collection: None,
    };
    let second = BpyProperty::Collection {
        item: shared("children"),
        fixed_type: "Object".to_string(),
        collection: None,
    };
    let other = BpyProperty::Collection {
        item: shared("materials"),
        fixed_type: "Material".to_string(),
        collection: None,
    };
    let mut extra = Vec::new();
    let mut defined = DefinedCollections::new();
    let a = first.as_return_type(&mut extra, &mut defined);
    let b = second.as_return_type(&mut extra, &mut defined);
    assert_eq!(a, b);
    assert_eq!(extra.len(), 1);
    let c = other.as_return_type(&mut extra, &mut defined);
    assert_eq!(c, plain(Shape::Object("BpyPropCollectionMaterial".to_string())));
    assert_eq!(extra.len(), 2);
    assert_eq!(extra[1].key, "Material");
}

#[test]
fn the_registry_is_a_set() {
    let mut defined = DefinedCollections::new();
    assert!(!defined.contains("Object"));
    assert!(defined.insert("Object".to_string()));
    assert!(!defined.insert("Object".to_string()));
    assert!(defined.insert("Material".to_string()));
    assert!(defined.contains("Object"));
    assert!(defined.contains("Material"));
    assert!(!defined.contains("object"));
}
