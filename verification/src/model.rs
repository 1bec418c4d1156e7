//! The emitted items, as values: type expressions, members, interfaces.
//!
//! Every item has a view in which text is a sequence of characters and a
//! list is a sequence; the contracts of the generator are stated over these
//! views.

use vstd::prelude::*;

verus! {

/// What a scalar holds, or each element of an array.
#[derive(Clone, Copy, Debug, PartialEq, Eq, Structural)]
pub enum Element {
    /// `bool`
    Bool,
    /// `u64`
    Unsigned,
    /// `i64`
    Signed,
    /// The 64-bit floating-point type.
    Float,
}

/// A type expression without its nullability.
#[derive(Clone, Debug, PartialEq, Eq)]
pub enum Shape {
    /// One value.
    Scalar(Element),
    /// An owned ordered sequence, `Vec<T>`.
    Sequence(Element),
    /// A borrowed view of a sequence, `&[T]`.
    Slice(Element),
    /// Owned text, `String`.
    Text,
    /// Borrowed text, `&str`.
    TextView,
    /// The bare handle.
    Handle,
    /// An owned handle seen through the named interface,
    /// `Box<dyn Name + Send + Sync>`.
    Object(String),
}

/// The view of a [`Shape`].
pub enum ShapeModel {
    Scalar(Element),
    Sequence(Element),
    Slice(Element),
    Text,
    TextView,
    Handle,
    Object(Seq<char>),
}

impl View for Shape {
    type V = ShapeModel;

    open spec fn view(&self) -> ShapeModel {
        match *self {
            Shape::Scalar(e) => ShapeModel::Scalar(e),
            Shape::Sequence(e) => ShapeModel::Sequence(e),
            Shape::Slice(e) => ShapeModel::Slice(e),
            Shape::Text => ShapeModel::Text,
            Shape::TextView => ShapeModel::TextView,
            Shape::Handle => ShapeModel::Handle,
            Shape::Object(name) => ShapeModel::Object(name@),
        }
    }
}

/// A type expression of the emitted code: a shape, wrapped in `Option` where
/// the value may be absent.
#[derive(Clone, Debug, PartialEq, Eq)]
pub struct TypeExpr {
    pub shape: Shape,
    pub nullable: bool,
}

/// The view of a [`TypeExpr`].
pub struct TypeModel {
    pub shape: ShapeModel,
    pub nullable: bool,
}

impl View for TypeExpr {
    type V = TypeModel;

    open spec fn view(&self) -> TypeModel {
        TypeModel { shape: self.shape@, nullable: self.nullable }
    }
}

/// How the response to a call becomes the value that the member returns.
#[derive(Clone, Debug, PartialEq, Eq)]
pub enum Decoder {
    /// The response is deserialised into the return type as it stands.
    Direct,
    /// The response is a handle, or where `nullable` an optional handle,
    /// which is then boxed as the named interface.
    Handle { interface: String, nullable: bool },
}

/// The view of a [`Decoder`].
pub enum DecoderModel {
    Direct,
    Handle { interface: Seq<char>, nullable: bool },
}

impl View for Decoder {
    type V = DecoderModel;

    open spec fn view(&self) -> DecoderModel {
        match *self {
            Decoder::Direct => DecoderModel::Direct,
            Decoder::Handle { interface, nullable } => DecoderModel::Handle {
                interface: interface@,
                nullable,
            },
        }
    }
}

/// One parameter of an emitted method.
#[derive(Clone, Debug, PartialEq, Eq)]
pub struct Parameter {
    pub name: String,
    pub ty: TypeExpr,
}

/// The view of a [`Parameter`].
pub struct ParameterModel {
    pub name: Seq<char>,
    pub ty: TypeModel,
}

impl View for Parameter {
    type V = ParameterModel;

    open spec fn view(&self) -> ParameterModel {
        ParameterModel { name: self.name@, ty: self.ty@ }
    }
}

/// The interface of a collection: lookup by key, the keys, the values and
/// the pairs, over elements seen through `element`.
#[derive(Clone, Debug, PartialEq, Eq)]
pub struct CollectionInterface {
    /// The canonical key under which the interface is registered.
    pub key: String,
    /// The name of the interface.
    pub name: String,
    /// The interface of the element class, which this one extends beside the
    /// collection marker, and through which it hands out its elements.
    pub element: String,
}

/// The view of a [`CollectionInterface`].
pub struct CollectionModel {
    pub key: Seq<char>,
    pub name: Seq<char>,
    pub element: Seq<char>,
}

impl View for CollectionInterface {
    type V = CollectionModel;

    open spec fn view(&self) -> CollectionModel {
        CollectionModel { key: self.key@, name: self.name@, element: self.element@ }
    }
}

/// The views of the items of a list, in order.
pub open spec fn views<T: View>(items: Seq<T>) -> Seq<T::V> {
    Seq::new(items.len(), |i: int| items[i]@)
}

/// Appending an item to a list appends its view to the views.
pub proof fn lemma_views_push<T: View>(items: Seq<T>, item: T)
    ensures
        views(items.push(item)) == views(items).push(item@),
{
}

/// Joining two lists joins their views.
pub proof fn lemma_views_concat<T: View>(first: Seq<T>, second: Seq<T>)
    ensures
        views(first + second) == views(first) + views(second),
{
}

/// The setter of a property.
#[derive(Clone, Debug, PartialEq, Eq)]
pub struct Setter {
    pub name: String,
    pub ty: TypeExpr,
}

/// The view of a [`Setter`].
pub struct SetterModel {
    pub name: Seq<char>,
    pub ty: TypeModel,
}

impl View for Setter {
    type V = SetterModel;

    open spec fn view(&self) -> SetterModel {
        SetterModel { name: self.name@, ty: self.ty@ }
    }
}

/// The view of an optional text.
pub open spec fn text_option(text: Option<String>) -> Option<Seq<char>> {
    match text {
        Some(t) => Some(t@),
        None => None,
    }
}

/// The members that a property gives its interface: a getter, and a setter
/// where the property can be written.
#[derive(Clone, Debug, PartialEq, Eq)]
pub struct Accessor {
    /// The name of the attribute, as the host knows it.
    pub attribute: String,
    /// Documentation of the getter.
    pub doc: Option<String>,
    /// The name of the getter.
    pub getter: String,
    /// What the getter returns.
    pub ty: TypeExpr,
    /// How the getter decodes the host's response.
    pub decoder: Decoder,
    /// The setter, if there is one.
    pub setter: Option<Setter>,
}

/// The view of an [`Accessor`].
pub struct AccessorModel {
    pub attribute: Seq<char>,
    pub doc: Option<Seq<char>>,
    pub getter: Seq<char>,
    pub ty: TypeModel,
    pub decoder: DecoderModel,
    pub setter: Option<SetterModel>,
}

impl View for Accessor {
    type V = AccessorModel;

    open spec fn view(&self) -> AccessorModel {
        AccessorModel {
            attribute: self.attribute@,
            doc: text_option(self.doc),
            getter: self.getter@,
            ty: self.ty@,
            decoder: self.decoder@,
            setter: match self.setter {
                Some(setter) => Some(setter@),
                None => None,
            },
        }
    }
}

/// What a call wrapper returns, and how it decodes the host's response.
#[derive(Clone, Debug, PartialEq, Eq)]
pub struct Output {
    pub ty: TypeExpr,
    pub decoder: Decoder,
}

/// The view of an [`Output`].
pub struct OutputModel {
    pub ty: TypeModel,
    pub decoder: DecoderModel,
}

impl View for Output {
    type V = OutputModel;

    open spec fn view(&self) -> OutputModel {
        OutputModel { ty: self.ty@, decoder: self.decoder@ }
    }
}

/// The wrapper of a method of the host.
#[derive(Clone, Debug, PartialEq, Eq)]
pub struct CallWrapper {
    /// The name of the wrapper.
    pub name: String,
    /// The name under which the host is asked to call the method.
    pub method: String,
    /// Documentation of the wrapper.
    pub doc: String,
    /// The parameters, in the order in which they are sent.
    pub params: Vec<Parameter>,
    /// What the wrapper returns, if anything.
    pub output: Option<Output>,
}

/// The view of a [`CallWrapper`].
pub struct CallWrapperModel {
    pub name: Seq<char>,
    pub method: Seq<char>,
    pub doc: Seq<char>,
    pub params: Seq<ParameterModel>,
    pub output: Option<OutputModel>,
}

impl View for CallWrapper {
    type V = CallWrapperModel;

    open spec fn view(&self) -> CallWrapperModel {
        CallWrapperModel {
            name: self.name@,
            method: self.method@,
            doc: self.doc@,
            params: views(self.params@),
            output: match self.output {
                Some(output) => Some(output@),
                None => None,
            },
        }
    }
}

/// The interface of a class, with the handle's implementation of it.
#[derive(Clone, Debug, PartialEq, Eq)]
pub struct Interface {
    /// The name of the interface.
    pub name: String,
    /// The interface that this one extends. A root of the hierarchy has
    /// none: it extends the baseline that makes an interface printable and
    /// seals it against implementations from outside.
    pub parent: Option<String>,
    /// The getters and setters, one entry for each emitted property.
    pub accessors: Vec<Accessor>,
    /// The wrappers, one for each emitted method.
    pub wrappers: Vec<CallWrapper>,
    /// Whether the interface also hands out the bare handle behind any of
    /// its implementers.
    pub unboxes: bool,
}

/// The view of an [`Interface`].
pub struct InterfaceModel {
    pub name: Seq<char>,
    pub parent: Option<Seq<char>>,
    pub accessors: Seq<AccessorModel>,
    pub wrappers: Seq<CallWrapperModel>,
    pub unboxes: bool,
}

impl View for Interface {
    type V = InterfaceModel;

    open spec fn view(&self) -> InterfaceModel {
        InterfaceModel {
            name: self.name@,
            parent: text_option(self.parent),
            accessors: views(self.accessors@),
            wrappers: views(self.wrappers@),
            unboxes: self.unboxes,
        }
    }
}

/// What one class contributes to the module: the collection interfaces that
/// it is the first to need, then its own interface.
#[derive(Clone, Debug, PartialEq, Eq)]
pub struct ClassBindings {
    pub collections: Vec<CollectionInterface>,
    pub interface: Interface,
}

/// The view of a [`ClassBindings`].
pub struct ClassBindingsModel {
    pub collections: Seq<CollectionModel>,
    pub interface: InterfaceModel,
}

impl View for ClassBindings {
    type V = ClassBindingsModel;

    open spec fn view(&self) -> ClassBindingsModel {
        ClassBindingsModel { collections: views(self.collections@), interface: self.interface@ }
    }
}

/// The callable of one operator.
#[derive(Clone, Debug, PartialEq, Eq)]
pub struct Callable {
    /// The name of the callable.
    pub name: String,
    /// The name under which the host is asked for the operator.
    pub operator: String,
    /// Documentation of the callable.
    pub doc: String,
}

/// The view of a [`Callable`].
pub struct CallableModel {
    pub name: Seq<char>,
    pub operator: Seq<char>,
    pub doc: Seq<char>,
}

impl View for Callable {
    type V = CallableModel;

    open spec fn view(&self) -> CallableModel {
        CallableModel { name: self.name@, operator: self.operator@, doc: self.doc@ }
    }
}

/// The callables of one namespace of operators.
#[derive(Clone, Debug, PartialEq, Eq)]
pub struct Namespace {
    /// The name of the scope that groups the callables.
    pub name: String,
    /// The name under which the host knows the namespace.
    pub module: String,
    pub callables: Vec<Callable>,
}

/// The view of a [`Namespace`].
pub struct NamespaceModel {
    pub name: Seq<char>,
    pub module: Seq<char>,
    pub callables: Seq<CallableModel>,
}

impl View for Namespace {
    type V = NamespaceModel;

    open spec fn view(&self) -> NamespaceModel {
        NamespaceModel {
            name: self.name@,
            module: self.module@,
            callables: views(self.callables@),
        }
    }
}

} // verus!
