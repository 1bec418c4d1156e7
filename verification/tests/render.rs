use blextism::model::{
    Accessor, CallWrapper, CollectionInterface, Decoder, Element, Interface, Namespace, Output,
    Parameter, Setter, Shape, TypeExpr,
};
use blextism::module::Root;

fn plain(shape: Shape) -> TypeExpr {
    TypeExpr { shape, nullable: false }
}

fn nullable(shape: Shape) -> TypeExpr {
    TypeExpr { shape, nullable: true }
}

#[test]
fn every_shape_has_its_type_expression() {
    assert_eq!(plain(Shape::Scalar(Element::Bool)).render(), "bool");
    assert_eq!(plain(Shape::Scalar(Element::Unsigned)).render(), "u64");
    assert_eq!(plain(Shape::Scalar(Element::Signed)).render(), "i64");
    assert_eq!(plain(Shape::Scalar(Element::Float)).render(), "f64");
    assert_eq!(plain(Shape::Sequence(Element::Unsigned)).render(), "Vec<u64>");
    assert_eq!(plain(Shape::Slice(Element::Float)).render(), "&[f64]");
    assert_eq!(plain(Shape::Text).render(), "String");
    assert_eq!(plain(Shape::TextView).render(), "&str");
    assert_eq!(plain(Shape::Handle).render(), "BpyPtr");
    assert_eq!(
        plain(Shape::Object("Scene".to_string())).render(),
        "Box<dyn Scene + Send + Sync>"
    );
}

#[test]
fn a_nullable_type_is_optional() {
    assert_eq!(nullable(Shape::Scalar(Element::Bool)).render(), "Option<bool>");
    assert_eq!(nullable(Shape::Slice(Element::Signed)).render(), "Option<&[i64]>");
    assert_eq!(nullable(Shape::TextView).render(), "Option<&str>");
    assert_eq!(
        nullable(Shape::Object("World".to_string())).render(),
        "Option<Box<dyn World + Send + Sync>>"
    );
}

#[test]
fn a_decoder_is_written_for_its_return_type() {
    assert_eq!(
        Decoder::Direct.render(),
        "serde_json::from_value(bpy_output).expect(\"expected to deserialize appropriately\")\n"
    );
    assert_eq!(
        Decoder::Handle { interface: "World".to_string(), nullable: false }.render(),
        "let result: BpyPtr = serde_json::from_value(bpy_output).expect(\"expected a handle\");\nBox::new(result) as Box<dyn World + Send + Sync>\n"
    );
    assert_eq!(
        Decoder::Handle { interface: "World".to_string(), nullable: true }.render(),
        "let result: Option<BpyPtr> = serde_json::from_value(bpy_output).expect(\"expected a handle or none\");\nmatch result {\nSome(xs) => Some(Box::new(xs) as Box<dyn World + Send + Sync>),\nNone => None,\n}\n"
    );
}

#[test]
fn an_accessor_declares_and_implements_its_members() {
    let accessor = Accessor {
        attribute: "type".to_string(),
        doc: Some("Kind of \"object\"".to_string()),
        getter: "r#type".to_string(),
        ty: nullable(Shape::Text),
        decoder: Decoder::Direct,
        setter: Some(Setter { name: "set_type".to_string(), ty: nullable(Shape::TextView) }),
    };
    assert_eq!(
        accessor.render_declaration(),
        "#[doc = \"Kind of \\\"object\\\"\"]\nfn r#type(&self) -> Option<String>;\n#[doc = \"Kind of \\\"object\\\"\"]\nfn set_type(&self, arg: Option<&str>);\n"
    );
    assert_eq!(
        accessor.render_implementation(),
        "fn r#type(&self) -> Option<String> {\nlet args = PyArgs::new(self);\nlet bpy_output = invoke_bpy_getattr(\"type\", args);\nserde_json::from_value(bpy_output).expect(\"expected to deserialize appropriately\")\n}\nfn set_type(&self, arg: Option<&str>) {\nlet args = PyArgs::arg1(self, arg);\ninvoke_bpy_setattr(\"type\", args);\n}\n"
    );
}

#[test]
fn an_accessor_without_setter_or_description_is_a_getter() {
    let accessor = Accessor {
        attribute: "users".to_string(),
        doc: None,
        getter: "users".to_string(),
        ty: plain(Shape::Scalar(Element::Unsigned)),
        decoder: Decoder::Direct,
        setter: None,
    };
    assert_eq!(accessor.render_declaration(), "fn users(&self) -> u64;\n");
    assert_eq!(
        accessor.render_implementation(),
        "fn users(&self) -> u64 {\nlet args = PyArgs::new(self);\nlet bpy_output = invoke_bpy_getattr(\"users\", args);\nserde_json::from_value(bpy_output).expect(\"expected to deserialize appropriately\")\n}\n"
    );
}

#[test]
fn a_wrapper_sends_its_parameters_in_order() {
    let wrapper = CallWrapper {
        name: "new".to_string(),
        method: "new".to_string(),
        doc: "Add a light".to_string(),
        params: vec![
            Parameter { name: "name".to_string(), ty: plain(Shape::TextView) },
            Parameter { name: "r#type".to_string(), ty: nullable(Shape::TextView) },
        ],
        output: Some(Output {
            ty: nullable(Shape::Object("Light".to_string())),
            decoder: Decoder::Handle { interface: "Light".to_string(), nullable: true },
        }),
    };
    assert_eq!(
        wrapper.render_declaration(),
        "#[doc = \"Add a light\"]\nfn new(&self, name: &str, r#type: Option<&str>) -> Option<Box<dyn Light + Send + Sync>>;\n"
    );
    assert_eq!(
        wrapper.render_implementation(),
        "fn new(&self, name: &str, r#type: Option<&str>) -> Option<Box<dyn Light + Send + Sync>> {\nlet bpy_input = PyArgs::argv(Some(self), vec![serde_json::to_value(name).expect(\"pyarg must be serializable\"), serde_json::to_value(r#type).expect(\"pyarg must be serializable\"), ], None);\nlet bpy_output = invoke_bpy_callmethod(\"new\", bpy_input);\nlet result: Option<BpyPtr> = serde_json::from_value(bpy_output).expect(\"expected a handle or none\");\nmatch result {\nSome(xs) => Some(Box::new(xs) as Box<dyn Light + Send + Sync>),\nNone => None,\n}\n}\n"
    );
}

#[test]
fn a_wrapper_without_output_discards_the_response() {
    let wrapper = CallWrapper {
        name: "update".to_string(),
        method: "update".to_string(),
        doc: String::new(),
        params: Vec::new(),
        output: None,
    };
    assert_eq!(wrapper.render_declaration(), "#[doc = \"\"]\nfn update(&self);\n");
    assert_eq!(
        wrapper.render_implementation(),
        "fn update(&self) {\nlet bpy_input = PyArgs::argv(Some(self), vec![], None);\ninvoke_bpy_callmethod(\"update\", bpy_input);\n}\n"
    );
}

#[test]
fn a_collection_interface_has_four_operations() {
    let collection = CollectionInterface {
        key: "Object".to_string(),
        name: "BpyPropCollectionObject".to_string(),
        element: "Object".to_string(),
    };
    let text = collection.render();
    assert!(text.starts_with("pub trait BpyPropCollectionObject: Object + BpyPropCollection {\n"));
    assert!(text.contains("fn get(&self, key: &str) -> Option<Box<dyn Object + Send + Sync>>;\n"));
    assert!(text.contains("fn keys(&self) -> Vec<String>;\n"));
    assert!(text.contains("fn values(&self) -> Vec<Box<dyn Object + Send + Sync>>;\n"));
    assert!(text.contains("fn items(&self) -> Vec<(String, Box<dyn Object + Send + Sync>)>;\n"));
    assert!(text.contains("impl BpyPropCollectionObject for BpyPtr {\n"));
    assert!(text.contains("get(self, key).map(Box::new).map(|bx| bx as Box<dyn Object + Send + Sync>)"));
    assert!(text.contains("keys(self)\n"));
    assert!(text.contains("values(self).into_iter()"));
    assert!(text.contains("items(self).into_iter()"));
    assert_eq!(text.matches("fn ").count(), 8);
}

#[test]
fn a_root_interface_extends_the_baseline() {
    let interface = Interface {
        name: "BpyStruct".to_string(),
        parent: None,
        accessors: Vec::new(),
        wrappers: Vec::new(),
        unboxes: true,
    };
    assert_eq!(
        interface.render(),
        "pub trait BpyStruct: std::fmt::Debug + private::Sealed {\n#[doc = \"Unbox a dynamic pointer. Useful for re-casting to a different trait object.\"]\nfn to_bpy_ptr(&self) -> BpyPtr;\n}\nimpl BpyStruct for BpyPtr {\nfn to_bpy_ptr(&self) -> BpyPtr {\nself.clone()\n}\n}\n"
    );
}

#[test]
fn a_derived_interface_extends_its_parent() {
    let interface = Interface {
        name: "Mesh".to_string(),
        parent: Some("Id".to_string()),
        accessors: Vec::new(),
        wrappers: Vec::new(),
        unboxes: false,
    };
    assert_eq!(interface.render(), "pub trait Mesh: Id {\n}\nimpl Mesh for BpyPtr {\n}\n");
}

#[test]
fn a_root_accessor_reads_its_reference_from_the_settings() {
    let root = Root {
        accessor: "objects".to_string(),
        interface: "BpyPropCollectionBlendDataObjects".to_string(),
    };
    assert_eq!(root.render_field(), "objects: i64,\n");
    assert_eq!(
        root.render(),
        "pub fn objects() -> Box<dyn super::types::BpyPropCollectionBlendDataObjects + Send + Sync> {\nBox::new(BpyPtr { ptr: load_bpy_data().objects })\n}\n"
    );
}

#[test]
fn an_empty_namespace_is_an_empty_scope() {
    let namespace =
        Namespace { name: "r#type".to_string(), module: "type".to_string(), callables: Vec::new() };
    assert_eq!(namespace.render(), "pub mod r#type {\nuse super::*;\n}\n");
}
