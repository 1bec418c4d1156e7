use blextism::model::{Decoder, Element, Shape, TypeExpr};
use blextism::module::generate;
use blextism::envelope::{Kwargs, PyArgs};
use blextism::schema::{
    BpyMethod, BpyOperator, BpyProperty, BpyPropertyItem, BpyPropertyNumber, BpyStructure, Schema,
};
use blextism::wire::Value;

fn item(identifier: &str) -> BpyPropertyItem {
    BpyPropertyItem {
        identifier: identifier.to_string(),
        description: None,
        is_required: false,
        is_runtime: false,
        is_output: false,
        is_never_none: false,
    }
}

fn class(name: &str, parent: &str) -> BpyStructure {
    BpyStructure {
        name: name.to_string(),
        parent: parent.to_string(),
        properties: Vec::new(),
        methods: Vec::new(),
    }
}

fn objects_collection() -> BpyProperty {
    BpyProperty::Collection {
        item: item("objects"),
        fixed_type: "Object".to_string(),
        collection: None,
    }
}

#[test]
fn never_none_boolean_gets_plain_getter_and_setter() {
    let mut object = class("Object", "ID");
    let mut hide_select = item("hide_select");
    hide_select.is_never_none = true;
    hide_select.description = Some("Disable selection in viewport".to_string());
    object.properties.push(("hide_select".to_string(), BpyProperty::Boolean { item: hide_select }));
    let module = generate(Schema {
        classes: vec![object, class("ID", "bpy_struct"), class("bpy_struct", "object")],
        operators: Vec::new(),
    });

    assert_eq!(module.classes.len(), 3);
    let interface = &module.classes[2].interface;
    assert_eq!(interface.name, "Object");
    assert_eq!(interface.parent, Some("Id".to_string()));
    assert_eq!(interface.accessors.len(), 1);
    let accessor = &interface.accessors[0];
    assert_eq!(accessor.attribute, "hide_select");
    assert_eq!(accessor.getter, "hide_select");
    assert_eq!(accessor.ty, TypeExpr { shape: Shape::Scalar(Element::Bool), nullable: false });
    assert_eq!(accessor.decoder, Decoder::Direct);
    let setter = accessor.setter.as_ref().expect("a property that can be written has a setter");
    assert_eq!(setter.name, "set_hide_select");
    assert_eq!(setter.ty, TypeExpr { shape: Shape::Scalar(Element::Bool), nullable: false });

    let text = module.render();
    assert!(text.contains("fn hide_select(&self) -> bool;"));
    assert!(text.contains("fn set_hide_select(&self, arg: bool);"));
    assert!(text.contains("let args = PyArgs::new(self);\nlet bpy_output = invoke_bpy_getattr(\"hide_select\", args);"));
    assert!(text.contains("let args = PyArgs::arg1(self, arg);\ninvoke_bpy_setattr(\"hide_select\", args);"));
    let parsed = syn::parse_file(&text).expect("the module is valid source text");
    println!("{}", prettyplease::unparse(&parsed));
}

#[test]
fn two_classes_share_one_collection_interface() {
    let mut scene = class("Scene", "ID");
    scene.properties.push(("objects".to_string(), objects_collection()));
    let mut view_layer = class("ViewLayer", "bpy_struct");
    view_layer.properties.push(("objects".to_string(), objects_collection()));
    let module = generate(Schema {
        classes: vec![view_layer, scene],
        operators: Vec::new(),
    });

    assert_eq!(module.classes.len(), 2);
    let first = &module.classes[0];
    let second = &module.classes[1];
    assert_eq!(first.interface.name, "Scene");
    assert_eq!(second.interface.name, "ViewLayer");
    assert_eq!(first.collections.len(), 1);
    assert_eq!(second.collections.len(), 0);
    assert_eq!(first.collections[0].key, "Object");
    assert_eq!(first.collections[0].name, "BpyPropCollectionObject");
    assert_eq!(first.collections[0].element, "Object");
    let shared = Shape::Object("BpyPropCollectionObject".to_string());
    assert_eq!(first.interface.accessors[0].ty.shape, shared);
    assert_eq!(second.interface.accessors[0].ty.shape, shared);
    assert!(first.interface.accessors[0].setter.is_none());

    let text = module.render();
    assert_eq!(text.matches("pub trait BpyPropCollectionObject:").count(), 1);
    assert_eq!(text.matches("impl BpyPropCollectionObject for BpyPtr").count(), 1);
}

#[test]
fn method_with_two_outputs_is_left_out() {
    let mut first = item("first");
    first.is_output = true;
    let mut second = item("second");
    second.is_output = true;
    let mut mesh = class("Mesh", "ID");
    mesh.methods.push((
        "split".to_string(),
        BpyMethod::Rna {
            description: "Split".to_string(),
            use_self: true,
            use_self_type: false,
            parameters: vec![
                BpyProperty::Boolean { item: first },
                BpyProperty::Int {
                    item: second,
                    number: BpyPropertyNumber { hard_min: 0, hard_max: 9, soft_min: 0, soft_max: 9 },
                },
            ],
        },
    ));
    mesh.methods.push(("copy".to_string(), BpyMethod::Builtin));
    let module = generate(Schema { classes: vec![mesh], operators: Vec::new() });
    assert_eq!(module.classes.len(), 1);
    assert!(module.classes[0].interface.wrappers.is_empty());
}

#[test]
fn an_operator_called_without_arguments_sends_no_names() {
    let module = generate(Schema {
        classes: Vec::new(),
        operators: vec![(
            "mesh".to_string(),
            vec![(
                "primitive_plane_add".to_string(),
                BpyOperator {
                    description: "Construct a filled planar mesh".to_string(),
                    parameters: Vec::new(),
                },
            )],
        )],
    });
    assert_eq!(module.namespaces.len(), 1);
    let callable = &module.namespaces[0].callables[0];
    assert_eq!(
        callable.render("mesh"),
        "#[doc = \"Construct a filled planar mesh\\n\"]\npub fn primitive_plane_add(params: impl Into<Kwargs>) -> serde_json::Value {\ninvoke_bpy_operator(\"mesh\", \"primitive_plane_add\", PyArgs::named(params.into()))\n}\n"
    );
    assert!(module.render().contains(&callable.render("mesh")));

    let sent = PyArgs::named(Kwargs::new());
    assert_eq!(sent.target, None);
    assert_eq!(sent.args, Some(Vec::new()));
    assert_eq!(sent.kwargs, None);
    assert_eq!(
        sent.into_value(),
        Value::Object(vec![
            ("self".to_string(), Value::Null),
            ("args".to_string(), Value::List(Vec::new())),
            ("kwargs".to_string(), Value::Null),
        ])
    );
}
