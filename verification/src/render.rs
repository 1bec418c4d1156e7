//! The text of the emitted items.
//!
//! Each item of the model has a text, stated as a function of its view, and
//! a `render` method that writes it. The text is source code of the
//! language that the bindings are compiled in; line breaks and indentation
//! are left to whoever prints it.

use crate::model::{
    Accessor, AccessorModel, CallWrapper, CallWrapperModel, Callable, CallableModel, ClassBindings,
    ClassBindingsModel, CollectionInterface, CollectionModel, Decoder, DecoderModel, Element,
    views, Interface, InterfaceModel, Namespace, NamespaceModel, Parameter, ParameterModel, Shape,
    ShapeModel, TypeExpr, TypeModel,
};
use crate::module::{Module, ModuleModel, Root, RootModel};
use vstd::prelude::*;
use vstd::string::*;

verus! {

/// The string literal that denotes `text` in source code, quotes included,
/// as the `proc-macro2` crate writes it.
pub uninterp spec fn string_literal(text: Seq<char>) -> Seq<char>;

/// Writes `text` as a string literal of source code.
///
/// Trusted: calls `proc_macro2::Literal::string` and prints the literal.
/// Outside of a procedural macro the crate puts the text between double
/// quotes and escapes each character on its own account, so the result
/// depends on the characters of the text alone; the contract gives it the
/// name [`string_literal`].
#[verifier::external_body]
pub(crate) fn quote_string(text: &str) -> (literal: String)
    ensures
        literal@ == string_literal(text@),
{
    proc_macro2::Literal::string(text).to_string()
}

impl Element {
    /// The name of the type.
    pub open spec fn text(self) -> Seq<char> {
        match self {
            Element::Bool => "bool"@,
            Element::Unsigned => "u64"@,
            Element::Signed => "i64"@,
            Element::Float => "f64"@,
        }
    }

    /// The name of the type.
    pub fn render(&self) -> (text: &'static str)
        ensures
            text@ == self.text(),
    {
        match self {
            Element::Bool => "bool",
            Element::Unsigned => "u64",
            Element::Signed => "i64",
            Element::Float => "f64",
        }
    }
}

/// An owned handle seen through the interface `name`.
pub open spec fn boxed(name: Seq<char>) -> Seq<char> {
    "Box<dyn "@ + name + " + Send + Sync>"@
}

/// Writes the type of an owned handle seen through the interface `name`.
fn render_boxed(name: &str) -> (text: String)
    ensures
        text@ == boxed(name@),
{
    let mut text = String::from_str("Box<dyn ");
    text.append(name);
    text.append(" + Send + Sync>");
    text
}

impl ShapeModel {
    /// The type expression, without its nullability.
    pub open spec fn text(self) -> Seq<char> {
        match self {
            ShapeModel::Scalar(element) => element.text(),
            ShapeModel::Sequence(element) => "Vec<"@ + element.text() + ">"@,
            ShapeModel::Slice(element) => "&["@ + element.text() + "]"@,
            ShapeModel::Text => "String"@,
            ShapeModel::TextView => "&str"@,
            ShapeModel::Handle => "BpyPtr"@,
            ShapeModel::Object(name) => boxed(name),
        }
    }
}

impl Shape {
    /// Writes the type expression, without its nullability.
    pub fn render(&self) -> (text: String)
        ensures
            text@ == self@.text(),
    {
        match self {
            Shape::Scalar(element) => String::from_str(element.render()),
            Shape::Sequence(element) => {
                let mut text = String::from_str("Vec<");
                text.append(element.render());
                text.append(">");
                text
            },
            Shape::Slice(element) => {
                let mut text = String::from_str("&[");
                text.append(element.render());
                text.append("]");
                text
            },
            Shape::Text => String::from_str("String"),
            Shape::TextView => String::from_str("&str"),
            Shape::Handle => String::from_str("BpyPtr"),
            Shape::Object(name) => render_boxed(name.as_str()),
        }
    }
}

impl TypeModel {
    /// The type expression: the shape, inside `Option` where it is
    /// nullable.
    pub open spec fn text(self) -> Seq<char> {
        if self.nullable {
            "Option<"@ + self.shape.text() + ">"@
        } else {
            self.shape.text()
        }
    }
}

impl TypeExpr {
    /// Writes the type expression.
    pub fn render(&self) -> (text: String)
        ensures
            text@ == self@.text(),
    {
        if self.nullable {
            let mut text = String::from_str("Option<");
            text.append(self.shape.render().as_str());
            text.append(">");
            text
        } else {
            self.shape.render()
        }
    }
}

impl DecoderModel {
    /// The statements that turn the response, held in `bpy_output`, into
    /// the value that the member returns.
    pub open spec fn text(self) -> Seq<char> {
        match self {
            DecoderModel::Direct =>
                "serde_json::from_value(bpy_output).expect(\"expected to deserialize appropriately\")\n"@,
            DecoderModel::Handle { interface, nullable } => if nullable {
                "let result: Option<BpyPtr> = serde_json::from_value(bpy_output).expect(\"expected a handle or none\");\nmatch result {\nSome(xs) => Some(Box::new(xs) as "@
                    + boxed(interface) + "),\nNone => None,\n}\n"@
            } else {
                "let result: BpyPtr = serde_json::from_value(bpy_output).expect(\"expected a handle\");\nBox::new(result) as "@
                    + boxed(interface) + "\n"@
            },
        }
    }
}

impl Decoder {
    /// Writes the statements that decode the response.
    pub fn render(&self) -> (text: String)
        ensures
            text@ == self@.text(),
    {
        match self {
            Decoder::Direct => String::from_str(
                "serde_json::from_value(bpy_output).expect(\"expected to deserialize appropriately\")\n",
            ),
            Decoder::Handle { interface, nullable } => if *nullable {
                let mut text = String::from_str(
                    "let result: Option<BpyPtr> = serde_json::from_value(bpy_output).expect(\"expected a handle or none\");\nmatch result {\nSome(xs) => Some(Box::new(xs) as ",
                );
                text.append(render_boxed(interface.as_str()).as_str());
                text.append("),\nNone => None,\n}\n");
                text
            } else {
                let mut text = String::from_str(
                    "let result: BpyPtr = serde_json::from_value(bpy_output).expect(\"expected a handle\");\nBox::new(result) as ",
                );
                text.append(render_boxed(interface.as_str()).as_str());
                text.append("\n");
                text
            },
        }
    }
}

/// The attribute that documents the item which follows it.
pub open spec fn doc_attribute(doc: Seq<char>) -> Seq<char> {
    "#[doc = "@ + string_literal(doc) + "]\n"@
}

/// Writes the attribute that documents the item which follows it.
fn render_doc(doc: &str) -> (text: String)
    ensures
        text@ == doc_attribute(doc@),
{
    let mut text = String::from_str("#[doc = ");
    text.append(quote_string(doc).as_str());
    text.append("]\n");
    text
}

impl AccessorModel {
    /// The attribute that documents a member of the property, where the
    /// property has a description.
    pub open spec fn documentation(self) -> Seq<char> {
        match self.doc {
            Some(doc) => doc_attribute(doc),
            None => Seq::empty(),
        }
    }

    /// What the property declares in its interface: the getter, and the
    /// setter where there is one, each under the property's documentation.
    pub open spec fn declaration(self) -> Seq<char> {
        self.documentation() + "fn "@ + self.getter + "(&self) -> "@ + self.ty.text() + ";\n"@
            + match self.setter {
            Some(setter) => self.documentation() + "fn "@ + setter.name + "(&self, arg: "@
                + setter.ty.text() + ");\n"@,
            None => Seq::empty(),
        }
    }

    /// How the handle implements the members: the getter asks the host for
    /// the attribute and decodes the response, the setter sends the new
    /// value as the one positional argument.
    pub open spec fn implementation(self) -> Seq<char> {
        "fn "@ + self.getter + "(&self) -> "@ + self.ty.text()
            + " {\nlet args = PyArgs::new(self);\nlet bpy_output = invoke_bpy_getattr("@
            + string_literal(self.attribute) + ", args);\n"@ + self.decoder.text() + "}\n"@
            + match self.setter {
            Some(setter) => "fn "@ + setter.name + "(&self, arg: "@ + setter.ty.text()
                + ") {\nlet args = PyArgs::arg1(self, arg);\ninvoke_bpy_setattr("@
                + string_literal(self.attribute) + ", args);\n}\n"@,
            None => Seq::empty(),
        }
    }
}

impl Accessor {
    /// Writes the attribute that documents a member of the property.
    fn render_documentation(&self) -> (text: String)
        ensures
            text@ == self@.documentation(),
    {
        match &self.doc {
            Some(doc) => render_doc(doc.as_str()),
            None => String::new(),
        }
    }

    /// Writes what the property declares in its interface.
    pub fn render_declaration(&self) -> (text: String)
        ensures
            text@ == self@.declaration(),
    {
        let mut text = self.render_documentation();
        text.append("fn ");
        text.append(self.getter.as_str());
        text.append("(&self) -> ");
        text.append(self.ty.render().as_str());
        text.append(";\n");
        match &self.setter {
            Some(setter) => {
                let mut member = self.render_documentation();
                member.append("fn ");
                member.append(setter.name.as_str());
                member.append("(&self, arg: ");
                member.append(setter.ty.render().as_str());
                member.append(");\n");
                text.append(member.as_str());
            },
            None => {},
        }
        text
    }

    /// Writes how the handle implements the members.
    pub fn render_implementation(&self) -> (text: String)
        ensures
            text@ == self@.implementation(),
    {
        let mut text = String::from_str("fn ");
        text.append(self.getter.as_str());
        text.append("(&self) -> ");
        text.append(self.ty.render().as_str());
        text.append(" {\nlet args = PyArgs::new(self);\nlet bpy_output = invoke_bpy_getattr(");
        text.append(quote_string(self.attribute.as_str()).as_str());
        text.append(", args);\n");
        text.append(self.decoder.render().as_str());
        text.append("}\n");
        match &self.setter {
            Some(setter) => {
                let mut member = String::from_str("fn ");
                member.append(setter.name.as_str());
                member.append("(&self, arg: ");
                member.append(setter.ty.render().as_str());
                member.append(") {\nlet args = PyArgs::arg1(self, arg);\ninvoke_bpy_setattr(");
                member.append(quote_string(self.attribute.as_str()).as_str());
                member.append(", args);\n}\n");
                text.append(member.as_str());
            },
            None => {},
        }
        text
    }
}

/// The parameters of a wrapper behind its receiver: each after a comma,
/// with its type.
pub open spec fn parameter_list(params: Seq<ParameterModel>) -> Seq<char>
    decreases params.len(),
{
    if params.len() == 0 {
        Seq::empty()
    } else {
        parameter_list(params.drop_last()) + ", "@ + params.last().name + ": "@
            + params.last().ty.text()
    }
}

/// The positional arguments that a wrapper sends: each parameter as a
/// value of the wire format, in order.
pub open spec fn argument_list(params: Seq<ParameterModel>) -> Seq<char>
    decreases params.len(),
{
    if params.len() == 0 {
        Seq::empty()
    } else {
        argument_list(params.drop_last()) + "serde_json::to_value("@ + params.last().name
            + ").expect(\"pyarg must be serializable\"), "@
    }
}

/// Writes the parameters of a wrapper behind its receiver.
fn render_parameter_list(params: &Vec<Parameter>) -> (text: String)
    ensures
        text@ == parameter_list(views(params@)),
{
    let ghost models = views(params@);
    let mut text = String::new();
    let mut i: usize = 0;
    while i < params.len()
        invariant
            i <= params.len(),
            models == views(params@),
            text@ == parameter_list(models.take(i as int)),
        decreases params.len() - i,
    {
        proof {
            let next = models.take(i + 1);
            assert(next.drop_last() =~= models.take(i as int));
        }
        text.append(", ");
        text.append(params[i].name.as_str());
        text.append(": ");
        text.append(params[i].ty.render().as_str());
        i += 1;
    }
    assert(models.take(params.len() as int) =~= models);
    text
}

/// Writes the positional arguments that a wrapper sends.
fn render_argument_list(params: &Vec<Parameter>) -> (text: String)
    ensures
        text@ == argument_list(views(params@)),
{
    let ghost models = views(params@);
    let mut text = String::new();
    let mut i: usize = 0;
    while i < params.len()
        invariant
            i <= params.len(),
            models == views(params@),
            text@ == argument_list(models.take(i as int)),
        decreases params.len() - i,
    {
        proof {
            let next = models.take(i + 1);
            assert(next.drop_last() =~= models.take(i as int));
        }
        text.append("serde_json::to_value(");
        text.append(params[i].name.as_str());
        text.append(").expect(\"pyarg must be serializable\"), ");
        i += 1;
    }
    assert(models.take(params.len() as int) =~= models);
    text
}

impl CallWrapperModel {
    /// The head of the wrapper: its name, its parameters behind the
    /// receiver, and what it returns, if anything.
    pub open spec fn signature(self) -> Seq<char> {
        "fn "@ + self.name + "(&self"@ + parameter_list(self.params) + ")"@ + match self.output {
            Some(output) => " -> "@ + output.ty.text(),
            None => Seq::empty(),
        }
    }

    /// What the method declares in its interface: the head of the wrapper
    /// under its documentation.
    pub open spec fn declaration(self) -> Seq<char> {
        doc_attribute(self.doc) + self.signature() + ";\n"@
    }

    /// How the handle implements the wrapper: it sends the parameters as
    /// positional arguments and decodes the response where the method hands
    /// a value back.
    pub open spec fn implementation(self) -> Seq<char> {
        self.signature() + " {\nlet bpy_input = PyArgs::argv(Some(self), vec!["@ + argument_list(
            self.params,
        ) + "], None);\n"@ + match self.output {
            Some(output) => "let bpy_output = invoke_bpy_callmethod("@ + string_literal(
                self.method,
            ) + ", bpy_input);\n"@ + output.decoder.text(),
            None => "invoke_bpy_callmethod("@ + string_literal(self.method) + ", bpy_input);\n"@,
        } + "}\n"@
    }
}

impl CallWrapper {
    /// Writes the head of the wrapper.
    fn render_signature(&self) -> (text: String)
        ensures
            text@ == self@.signature(),
    {
        let mut text = String::from_str("fn ");
        text.append(self.name.as_str());
        text.append("(&self");
        text.append(render_parameter_list(&self.params).as_str());
        text.append(")");
        match &self.output {
            Some(output) => {
                let mut returned = String::from_str(" -> ");
                returned.append(output.ty.render().as_str());
                text.append(returned.as_str());
            },
            None => {},
        }
        text
    }

    /// Writes what the method declares in its interface.
    pub fn render_declaration(&self) -> (text: String)
        ensures
            text@ == self@.declaration(),
    {
        let mut text = render_doc(self.doc.as_str());
        text.append(self.render_signature().as_str());
        text.append(";\n");
        text
    }

    /// Writes how the handle implements the wrapper.
    pub fn render_implementation(&self) -> (text: String)
        ensures
            text@ == self@.implementation(),
    {
        let mut text = self.render_signature();
        text.append(" {\nlet bpy_input = PyArgs::argv(Some(self), vec![");
        text.append(render_argument_list(&self.params).as_str());
        text.append("], None);\n");
        let call = match &self.output {
            Some(output) => {
                let mut call = String::from_str("let bpy_output = invoke_bpy_callmethod(");
                call.append(quote_string(self.method.as_str()).as_str());
                call.append(", bpy_input);\n");
                call.append(output.decoder.render().as_str());
                call
            },
            None => {
                let mut call = String::from_str("invoke_bpy_callmethod(");
                call.append(quote_string(self.method.as_str()).as_str());
                call.append(", bpy_input);\n");
                call
            },
        };
        text.append(call.as_str());
        text.append("}\n");
        text
    }
}

impl CollectionModel {
    /// The interface of the collection and the handle's implementation of
    /// it: lookup by key, the keys, the values, and the pairs of both. The
    /// handle forwards each to the function of the same name that serves
    /// all collections.
    pub open spec fn text(self) -> Seq<char> {
        "pub trait "@ + self.name + ": "@ + self.element
            + " + BpyPropCollection {\nfn get(&self, key: &str) -> Option<"@ + boxed(self.element)
            + ">;\nfn keys(&self) -> Vec<String>;\nfn values(&self) -> Vec<"@ + boxed(self.element)
            + ">;\nfn items(&self) -> Vec<(String, "@ + boxed(self.element) + ")>;\n}\nimpl "@
            + self.name + " for BpyPtr {\nfn get(&self, key: &str) -> Option<"@ + boxed(
            self.element,
        ) + "> {\nget(self, key).map(Box::new).map(|bx| bx as "@ + boxed(self.element)
            + ")\n}\nfn keys(&self) -> Vec<String> {\nkeys(self)\n}\nfn values(&self) -> Vec<"@
            + boxed(self.element) + "> {\nvalues(self).into_iter().map(|xs| Box::new(xs) as "@
            + boxed(self.element) + ").collect()\n}\nfn items(&self) -> Vec<(String, "@ + boxed(
            self.element,
        ) + ")> {\nitems(self).into_iter().map(|(k, xs)| (k, Box::new(xs) as "@ + boxed(
            self.element,
        ) + ")).collect()\n}\n}\n"@
    }
}

impl CollectionInterface {
    /// Writes the interface of the collection and the handle's
    /// implementation of it.
    pub fn render(&self) -> (text: String)
        ensures
            text@ == self@.text(),
    {
        let target = render_boxed(self.element.as_str());
        let mut text = String::from_str("pub trait ");
        text.append(self.name.as_str());
        text.append(": ");
        text.append(self.element.as_str());
        text.append(" + BpyPropCollection {\nfn get(&self, key: &str) -> Option<");
        text.append(target.as_str());
        text.append(">;\nfn keys(&self) -> Vec<String>;\nfn values(&self) -> Vec<");
        text.append(target.as_str());
        text.append(">;\nfn items(&self) -> Vec<(String, ");
        text.append(target.as_str());
        text.append(")>;\n}\nimpl ");
        text.append(self.name.as_str());
        text.append(" for BpyPtr {\nfn get(&self, key: &str) -> Option<");
        text.append(target.as_str());
        text.append("> {\nget(self, key).map(Box::new).map(|bx| bx as ");
        text.append(target.as_str());
        text.append(")\n}\nfn keys(&self) -> Vec<String> {\nkeys(self)\n}\nfn values(&self) -> Vec<");
        text.append(target.as_str());
        text.append("> {\nvalues(self).into_iter().map(|xs| Box::new(xs) as ");
        text.append(target.as_str());
        text.append(").collect()\n}\nfn items(&self) -> Vec<(String, ");
        text.append(target.as_str());
        text.append(")> {\nitems(self).into_iter().map(|(k, xs)| (k, Box::new(xs) as ");
        text.append(target.as_str());
        text.append(")).collect()\n}\n}\n");
        text
    }
}

/// The texts of a list of collection interfaces, one after the other.
pub open spec fn collection_texts(collections: Seq<CollectionModel>) -> Seq<char>
    decreases collections.len(),
{
    if collections.len() == 0 {
        Seq::empty()
    } else {
        collection_texts(collections.drop_last()) + collections.last().text()
    }
}

/// What a list of properties declares, one after the other.
pub open spec fn accessor_declarations(accessors: Seq<AccessorModel>) -> Seq<char>
    decreases accessors.len(),
{
    if accessors.len() == 0 {
        Seq::empty()
    } else {
        accessor_declarations(accessors.drop_last()) + accessors.last().declaration()
    }
}

/// How the handle implements a list of properties, one after the other.
pub open spec fn accessor_implementations(accessors: Seq<AccessorModel>) -> Seq<char>
    decreases accessors.len(),
{
    if accessors.len() == 0 {
        Seq::empty()
    } else {
        accessor_implementations(accessors.drop_last()) + accessors.last().implementation()
    }
}

/// What a list of methods declares, one after the other.
pub open spec fn wrapper_declarations(wrappers: Seq<CallWrapperModel>) -> Seq<char>
    decreases wrappers.len(),
{
    if wrappers.len() == 0 {
        Seq::empty()
    } else {
        wrapper_declarations(wrappers.drop_last()) + wrappers.last().declaration()
    }
}

/// How the handle implements a list of wrappers, one after the other.
pub open spec fn wrapper_implementations(wrappers: Seq<CallWrapperModel>) -> Seq<char>
    decreases wrappers.len(),
{
    if wrappers.len() == 0 {
        Seq::empty()
    } else {
        wrapper_implementations(wrappers.drop_last()) + wrappers.last().implementation()
    }
}

/// Writes a list of collection interfaces.
fn render_collections(collections: &Vec<CollectionInterface>) -> (text: String)
    ensures
        text@ == collection_texts(views(collections@)),
{
    let ghost models = views(collections@);
    let mut text = String::new();
    let mut i: usize = 0;
    while i < collections.len()
        invariant
            i <= collections.len(),
            models == views(collections@),
            text@ == collection_texts(models.take(i as int)),
        decreases collections.len() - i,
    {
        proof {
            let next = models.take(i + 1);
            assert(next.drop_last() =~= models.take(i as int));
        }
        text.append(collections[i].render().as_str());
        i += 1;
    }
    assert(models.take(collections.len() as int) =~= models);
    text
}

/// Writes what a list of properties declares.
fn render_accessor_declarations(accessors: &Vec<Accessor>) -> (text: String)
    ensures
        text@ == accessor_declarations(views(accessors@)),
{
    let ghost models = views(accessors@);
    let mut text = String::new();
    let mut i: usize = 0;
    while i < accessors.len()
        invariant
            i <= accessors.len(),
            models == views(accessors@),
            text@ == accessor_declarations(models.take(i as int)),
        decreases accessors.len() - i,
    {
        proof {
            let next = models.take(i + 1);
            assert(next.drop_last() =~= models.take(i as int));
        }
        text.append(accessors[i].render_declaration().as_str());
        i += 1;
    }
    assert(models.take(accessors.len() as int) =~= models);
    text
}

/// Writes how the handle implements a list of properties.
fn render_accessor_implementations(accessors: &Vec<Accessor>) -> (text: String)
    ensures
        text@ == accessor_implementations(views(accessors@)),
{
    let ghost models = views(accessors@);
    let mut text = String::new();
    let mut i: usize = 0;
    while i < accessors.len()
        invariant
            i <= accessors.len(),
            models == views(accessors@),
            text@ == accessor_implementations(models.take(i as int)),
        decreases accessors.len() - i,
    {
        proof {
            let next = models.take(i + 1);
            assert(next.drop_last() =~= models.take(i as int));
        }
        text.append(accessors[i].render_implementation().as_str());
        i += 1;
    }
    assert(models.take(accessors.len() as int) =~= models);
    text
}

/// Writes what a list of methods declares.
fn render_wrapper_declarations(wrappers: &Vec<CallWrapper>) -> (text: String)
    ensures
        text@ == wrapper_declarations(views(wrappers@)),
{
    let ghost models = views(wrappers@);
    let mut text = String::new();
    let mut i: usize = 0;
    while i < wrappers.len()
        invariant
            i <= wrappers.len(),
            models == views(wrappers@),
            text@ == wrapper_declarations(models.take(i as int)),
        decreases wrappers.len() - i,
    {
        proof {
            let next = models.take(i + 1);
            assert(next.drop_last() =~= models.take(i as int));
        }
        text.append(wrappers[i].render_declaration().as_str());
        i += 1;
    }
    assert(models.take(wrappers.len() as int) =~= models);
    text
}

/// Writes how the handle implements a list of wrappers.
fn render_wrapper_implementations(wrappers: &Vec<CallWrapper>) -> (text: String)
    ensures
        text@ == wrapper_implementations(views(wrappers@)),
{
    let ghost models = views(wrappers@);
    let mut text = String::new();
    let mut i: usize = 0;
    while i < wrappers.len()
        invariant
            i <= wrappers.len(),
            models == views(wrappers@),
            text@ == wrapper_implementations(models.take(i as int)),
        decreases wrappers.len() - i,
    {
        proof {
            let next = models.take(i + 1);
            assert(next.drop_last() =~= models.take(i as int));
        }
        text.append(wrappers[i].render_implementation().as_str());
        i += 1;
    }
    assert(models.take(wrappers.len() as int) =~= models);
    text
}

impl InterfaceModel {
    /// The interface of the class and the handle's implementation of it.
    ///
    /// The interface extends that of the parent class; a root extends the
    /// baseline instead, which makes it printable and seals it. The
    /// interface that hands out the bare handle declares that operation
    /// after its other members.
    pub open spec fn text(self) -> Seq<char> {
        "pub trait "@ + self.name + ": "@ + (match self.parent {
            Some(parent) => parent,
            None => "std::fmt::Debug + private::Sealed"@,
        }) + " {\n"@ + accessor_declarations(self.accessors) + wrapper_declarations(self.wrappers)
            + (if self.unboxes {
            "#[doc = \"Unbox a dynamic pointer. Useful for re-casting to a different trait object.\"]\nfn to_bpy_ptr(&self) -> BpyPtr;\n"@
        } else {
            Seq::empty()
        }) + "}\nimpl "@ + self.name + " for BpyPtr {\n"@ + accessor_implementations(
            self.accessors,
        ) + wrapper_implementations(self.wrappers) + (if self.unboxes {
            "fn to_bpy_ptr(&self) -> BpyPtr {\nself.clone()\n}\n"@
        } else {
            Seq::empty()
        }) + "}\n"@
    }
}

impl Interface {
    /// Writes the interface of the class and the handle's implementation of
    /// it.
    pub fn render(&self) -> (text: String)
        ensures
            text@ == self@.text(),
    {
        let mut text = String::from_str("pub trait ");
        text.append(self.name.as_str());
        text.append(": ");
        match &self.parent {
            Some(parent) => text.append(parent.as_str()),
            None => text.append("std::fmt::Debug + private::Sealed"),
        }
        text.append(" {\n");
        text.append(render_accessor_declarations(&self.accessors).as_str());
        text.append(render_wrapper_declarations(&self.wrappers).as_str());
        if self.unboxes {
            text.append(
                "#[doc = \"Unbox a dynamic pointer. Useful for re-casting to a different trait object.\"]\nfn to_bpy_ptr(&self) -> BpyPtr;\n",
            );
        }
        text.append("}\nimpl ");
        text.append(self.name.as_str());
        text.append(" for BpyPtr {\n");
        text.append(render_accessor_implementations(&self.accessors).as_str());
        text.append(render_wrapper_implementations(&self.wrappers).as_str());
        if self.unboxes {
            text.append("fn to_bpy_ptr(&self) -> BpyPtr {\nself.clone()\n}\n");
        }
        text.append("}\n");
        text
    }
}

impl ClassBindingsModel {
    /// What the class contributes to the module: its collection
    /// interfaces, then its own interface.
    pub open spec fn text(self) -> Seq<char> {
        collection_texts(self.collections) + self.interface.text()
    }
}

impl ClassBindings {
    /// Writes what the class contributes to the module.
    pub fn render(&self) -> (text: String)
        ensures
            text@ == self@.text(),
    {
        let mut text = render_collections(&self.collections);
        text.append(self.interface.render().as_str());
        text
    }
}

impl CallableModel {
    /// The callable of an operator: it takes anything that converts into
    /// named arguments and hands back the host's response undecoded.
    pub open spec fn text(self, module: Seq<char>) -> Seq<char> {
        doc_attribute(self.doc) + "pub fn "@ + self.name
            + "(params: impl Into<Kwargs>) -> serde_json::Value {\ninvoke_bpy_operator("@
            + string_literal(module) + ", "@ + string_literal(self.operator)
            + ", PyArgs::named(params.into()))\n}\n"@
    }
}

impl Callable {
    /// Writes the callable of an operator of the namespace `module`.
    pub fn render(&self, module: &str) -> (text: String)
        ensures
            text@ == self@.text(module@),
    {
        let mut text = render_doc(self.doc.as_str());
        text.append("pub fn ");
        text.append(self.name.as_str());
        text.append("(params: impl Into<Kwargs>) -> serde_json::Value {\ninvoke_bpy_operator(");
        text.append(quote_string(module).as_str());
        text.append(", ");
        text.append(quote_string(self.operator.as_str()).as_str());
        text.append(", PyArgs::named(params.into()))\n}\n");
        text
    }
}

/// The callables of a namespace, one after the other.
pub open spec fn callable_texts(callables: Seq<CallableModel>, module: Seq<char>) -> Seq<char>
    decreases callables.len(),
{
    if callables.len() == 0 {
        Seq::empty()
    } else {
        callable_texts(callables.drop_last(), module) + callables.last().text(module)
    }
}

impl NamespaceModel {
    /// The scope that groups the callables of the namespace.
    pub open spec fn text(self) -> Seq<char> {
        "pub mod "@ + self.name + " {\nuse super::*;\n"@ + callable_texts(
            self.callables,
            self.module,
        ) + "}\n"@
    }
}

impl Namespace {
    /// Writes the scope that groups the callables of the namespace.
    pub fn render(&self) -> (text: String)
        ensures
            text@ == self@.text(),
    {
        let ghost models = views(self.callables@);
        let mut members = String::new();
        let mut i: usize = 0;
        while i < self.callables.len()
            invariant
                i <= self.callables.len(),
                models == views(self.callables@),
                members@ == callable_texts(models.take(i as int), self.module@),
            decreases self.callables.len() - i,
        {
            proof {
                let next = models.take(i + 1);
                assert(next.drop_last() =~= models.take(i as int));
            }
            members.append(self.callables[i].render(self.module.as_str()).as_str());
            i += 1;
        }
        assert(models.take(self.callables.len() as int) =~= models);
        let mut text = String::from_str("pub mod ");
        text.append(self.name.as_str());
        text.append(" {\nuse super::*;\n");
        text.append(members.as_str());
        text.append("}\n");
        text
    }
}

impl RootModel {
    /// The setting that holds the collection's reference.
    pub open spec fn field(self) -> Seq<char> {
        self.accessor + ": i64,\n"@
    }

    /// The accessor: it makes a handle from the reference that the run's
    /// settings hold, and hands it out through the collection's interface.
    pub open spec fn text(self) -> Seq<char> {
        "pub fn "@ + self.accessor + "() -> Box<dyn super::types::"@ + self.interface
            + " + Send + Sync> {\nBox::new(BpyPtr { ptr: load_bpy_data()."@ + self.accessor
            + " })\n}\n"@
    }
}

impl Root {
    /// Writes the setting that holds the collection's reference.
    pub fn render_field(&self) -> (text: String)
        ensures
            text@ == self@.field(),
    {
        let mut text = self.accessor.clone();
        text.append(": i64,\n");
        text
    }

    /// Writes the accessor.
    pub fn render(&self) -> (text: String)
        ensures
            text@ == self@.text(),
    {
        let mut text = String::from_str("pub fn ");
        text.append(self.accessor.as_str());
        text.append("() -> Box<dyn super::types::");
        text.append(self.interface.as_str());
        text.append(" + Send + Sync> {\nBox::new(BpyPtr { ptr: load_bpy_data().");
        text.append(self.accessor.as_str());
        text.append(" })\n}\n");
        text
    }
}

/// The texts of the classes' contributions, one after the other.
pub open spec fn class_texts(classes: Seq<ClassBindingsModel>) -> Seq<char>
    decreases classes.len(),
{
    if classes.len() == 0 {
        Seq::empty()
    } else {
        class_texts(classes.drop_last()) + classes.last().text()
    }
}

/// The settings of the roots, one after the other.
pub open spec fn root_fields(roots: Seq<RootModel>) -> Seq<char>
    decreases roots.len(),
{
    if roots.len() == 0 {
        Seq::empty()
    } else {
        root_fields(roots.drop_last()) + roots.last().field()
    }
}

/// The accessors of the roots, one after the other.
pub open spec fn root_texts(roots: Seq<RootModel>) -> Seq<char>
    decreases roots.len(),
{
    if roots.len() == 0 {
        Seq::empty()
    } else {
        root_texts(roots.drop_last()) + roots.last().text()
    }
}

/// The scopes of the namespaces, one after the other.
pub open spec fn namespace_texts(namespaces: Seq<NamespaceModel>) -> Seq<char>
    decreases namespaces.len(),
{
    if namespaces.len() == 0 {
        Seq::empty()
    } else {
        namespace_texts(namespaces.drop_last()) + namespaces.last().text()
    }
}

/// The head of the module: its imports, the seal of its interfaces, and the
/// four functions that serve every collection.
pub open spec fn module_head() -> Seq<char> {
    "pub mod bpy {\nuse serde::{Deserialize, Serialize};\nuse smartstring::alias::String;\nuse crate::{BpyPtr, Kwargs, PyArgs, invoke_bpy_setattr, invoke_bpy_getattr, invoke_bpy_callmethod, invoke_bpy_operator};\nuse std::collections::HashMap;\nmod private {\npub trait Sealed {}\n}\nimpl private::Sealed for BpyPtr {}\npub mod types {\nuse super::*;\nfn get(ptr: &BpyPtr, key: &str) -> Option<BpyPtr> {\nlet args = PyArgs::arg1(ptr, key);\nlet result = invoke_bpy_callmethod(\"get\", args);\nserde_json::from_value(result).expect(\"expected a handle or none\")\n}\nfn keys(ptr: &BpyPtr) -> Vec<String> {\nlet args = PyArgs::new(ptr);\nlet result = invoke_bpy_callmethod(\"keys\", args);\nserde_json::from_value(result).expect(\"expected a list of keys\")\n}\nfn values(ptr: &BpyPtr) -> Vec<BpyPtr> {\nlet args = PyArgs::new(ptr);\nlet result = invoke_bpy_callmethod(\"values\", args);\nserde_json::from_value(result).expect(\"expected a list of handles\")\n}\nfn items(ptr: &BpyPtr) -> Vec<(String, BpyPtr)> {\nlet args = PyArgs::new(ptr);\nlet result = invoke_bpy_callmethod(\"items\", args);\nserde_json::from_value(result).expect(\"expected a list of pairs\")\n}\n"@
}

/// Between the interfaces and the settings: the end of the scope of the
/// interfaces, and the start of the structure that holds the references of
/// the roots.
pub open spec fn module_settings() -> Seq<char> {
    "}\n#[derive(Deserialize)]\nstruct BpyData {\ncontext: i64,\n"@
}

/// Between the settings and the accessors: the loader, which reads the
/// run's settings once, on first use, and keeps them for the life of the
/// process; and the start of the scope of the accessors.
pub open spec fn module_loader() -> Seq<char> {
    "}\nstatic BPY_DATA: std::sync::OnceLock<BpyData> = std::sync::OnceLock::new();\nfn load_bpy_data() -> &'static BpyData {\nBPY_DATA.get_or_init(|| {\nlet cfg = extism_pdk::config::get(\"bpy.data\");\nserde_json::from_str(cfg.expect(\"'bpy.data' extism config must be set\").expect(\"'bpy.data' should be set\").as_str()).expect(\"'bpy.data' must contain valid JSON\")\n})\n}\npub mod data {\nuse super::*;\n"@
}

/// Between the accessors and the operators.
pub open spec fn module_operators() -> Seq<char> {
    "}\npub mod ops {\nuse super::*;\n"@
}

/// The end of the module: the accessor of the current context.
pub open spec fn module_tail() -> Seq<char> {
    "}\npub fn context() -> Box<dyn types::Context + Send + Sync> {\nBox::new(BpyPtr { ptr: load_bpy_data().context })\n}\n}\n"@
}

impl ModuleModel {
    /// The text of the whole module.
    pub open spec fn text(self) -> Seq<char> {
        module_head() + class_texts(self.classes) + module_settings() + root_fields(self.roots)
            + module_loader() + root_texts(self.roots) + module_operators() + namespace_texts(
            self.namespaces,
        ) + module_tail()
    }
}

impl Module {
    /// Writes the interfaces of the classes.
    fn render_classes(&self) -> (text: String)
        ensures
            text@ == class_texts(self@.classes),
    {
        let ghost models = views(self.classes@);
        let mut text = String::new();
        let mut i: usize = 0;
        while i < self.classes.len()
            invariant
                i <= self.classes.len(),
                models == views(self.classes@),
                text@ == class_texts(models.take(i as int)),
            decreases self.classes.len() - i,
        {
            proof {
                let next = models.take(i + 1);
                assert(next.drop_last() =~= models.take(i as int));
            }
            text.append(self.classes[i].render().as_str());
            i += 1;
        }
        assert(models.take(self.classes.len() as int) =~= models);
        text
    }

    /// Writes the settings and the accessors of the roots.
    fn render_roots(&self) -> (texts: (String, String))
        ensures
            texts.0@ == root_fields(self@.roots),
            texts.1@ == root_texts(self@.roots),
    {
        let ghost models = views(self.roots@);
        let mut fields = String::new();
        let mut accessors = String::new();
        let mut i: usize = 0;
        while i < self.roots.len()
            invariant
                i <= self.roots.len(),
                models == views(self.roots@),
                fields@ == root_fields(models.take(i as int)),
                accessors@ == root_texts(models.take(i as int)),
            decreases self.roots.len() - i,
        {
            proof {
                let next = models.take(i + 1);
                assert(next.drop_last() =~= models.take(i as int));
            }
            fields.append(self.roots[i].render_field().as_str());
            accessors.append(self.roots[i].render().as_str());
            i += 1;
        }
        assert(models.take(self.roots.len() as int) =~= models);
        (fields, accessors)
    }

    /// Writes the scopes of the namespaces.
    fn render_namespaces(&self) -> (text: String)
        ensures
            text@ == namespace_texts(self@.namespaces),
    {
        let ghost models = views(self.namespaces@);
        let mut text = String::new();
        let mut i: usize = 0;
        while i < self.namespaces.len()
            invariant
                i <= self.namespaces.len(),
                models == views(self.namespaces@),
                text@ == namespace_texts(models.take(i as int)),
            decreases self.namespaces.len() - i,
        {
            proof {
                let next = models.take(i + 1);
                assert(next.drop_last() =~= models.take(i as int));
            }
            text.append(self.namespaces[i].render().as_str());
            i += 1;
        }
        assert(models.take(self.namespaces.len() as int) =~= models);
        text
    }

    /// Writes the whole module: the runtime that every member forwards to,
    /// the interfaces of the classes, the accessors of the roots and of the
    /// current context, and the callables of the operators.
    pub fn render(&self) -> (text: String)
        ensures
            text@ == self@.text(),
    {
        let mut text = String::from_str(
            "pub mod bpy {\nuse serde::{Deserialize, Serialize};\nuse smartstring::alias::String;\nuse crate::{BpyPtr, Kwargs, PyArgs, invoke_bpy_setattr, invoke_bpy_getattr, invoke_bpy_callmethod, invoke_bpy_operator};\nuse std::collections::HashMap;\nmod private {\npub trait Sealed {}\n}\nimpl private::Sealed for BpyPtr {}\npub mod types {\nuse super::*;\nfn get(ptr: &BpyPtr, key: &str) -> Option<BpyPtr> {\nlet args = PyArgs::arg1(ptr, key);\nlet result = invoke_bpy_callmethod(\"get\", args);\nserde_json::from_value(result).expect(\"expected a handle or none\")\n}\nfn keys(ptr: &BpyPtr) -> Vec<String> {\nlet args = PyArgs::new(ptr);\nlet result = invoke_bpy_callmethod(\"keys\", args);\nserde_json::from_value(result).expect(\"expected a list of keys\")\n}\nfn values(ptr: &BpyPtr) -> Vec<BpyPtr> {\nlet args = PyArgs::new(ptr);\nlet result = invoke_bpy_callmethod(\"values\", args);\nserde_json::from_value(result).expect(\"expected a list of handles\")\n}\nfn items(ptr: &BpyPtr) -> Vec<(String, BpyPtr)> {\nlet args = PyArgs::new(ptr);\nlet result = invoke_bpy_callmethod(\"items\", args);\nserde_json::from_value(result).expect(\"expected a list of pairs\")\n}\n",
        );
        let (fields, accessors) = self.render_roots();
        text.append(self.render_classes().as_str());
        text.append("}\n#[derive(Deserialize)]\nstruct BpyData {\ncontext: i64,\n");
        text.append(fields.as_str());
        text.append(
            "}\nstatic BPY_DATA: std::sync::OnceLock<BpyData> = std::sync::OnceLock::new();\nfn load_bpy_data() -> &'static BpyData {\nBPY_DATA.get_or_init(|| {\nlet cfg = extism_pdk::config::get(\"bpy.data\");\nserde_json::from_str(cfg.expect(\"'bpy.data' extism config must be set\").expect(\"'bpy.data' should be set\").as_str()).expect(\"'bpy.data' must contain valid JSON\")\n})\n}\npub mod data {\nuse super::*;\n",
        );
        text.append(accessors.as_str());
        text.append("}\npub mod ops {\nuse super::*;\n");
        text.append(self.render_namespaces().as_str());
        text.append(
            "}\npub fn context() -> Box<dyn types::Context + Send + Sync> {\nBox::new(BpyPtr { ptr: load_bpy_data().context })\n}\n}\n",
        );
        text
    }
}

} // verus!
