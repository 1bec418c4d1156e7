//! The type mapper: from a property or parameter descriptor to the type
//! expressions under which the emitted code reads and writes it.

use crate::model::{
    views, CollectionInterface, CollectionModel, Decoder, DecoderModel, Element,
    Parameter, ParameterModel, Shape, ShapeModel, TypeExpr, TypeModel,
};
use crate::naming::{
    safe_ident, safe_ident_text, snake_case, to_snek_case, to_upper_camel_case, upper_camel_case,
};
use crate::registry::DefinedCollections;
use crate::schema::{BpyProperty, BpyPropertyNumber};
use vstd::prelude::*;
use vstd::string::*;

verus! {

/// The name of the collection interface registered under `key`.
pub open spec fn collection_interface_name(key: Seq<char>) -> Seq<char> {
    upper_camel_case("BpyPropCollection_"@ + key)
}

/// Names the collection interface registered under `key`.
pub fn name_collection_interface(key: &str) -> (name: String)
    ensures
        name@ == collection_interface_name(key@),
{
    let mut prefixed = String::from_str("BpyPropCollection_");
    prefixed.append(key);
    to_upper_camel_case(prefixed.as_str())
}

/// The integer representation that a declared range maps onto.
pub open spec fn integer_element(number: BpyPropertyNumber) -> Element {
    if number.unsigned() {
        Element::Unsigned
    } else {
        Element::Signed
    }
}

impl BpyProperty {
    /// The key under which a collection's interface is registered: the name
    /// of its specialisation where it has one, else that of its element
    /// class. Empty for a descriptor that is no collection.
    pub open spec fn canonical_key(self) -> Seq<char> {
        match self {
            BpyProperty::Collection { fixed_type, collection, .. } => match collection {
                Some(specialised) => specialised@,
                None => fixed_type@,
            },
            _ => Seq::empty(),
        }
    }

    /// The interface that a collection descriptor asks for.
    pub open spec fn collection_interface(self) -> CollectionModel {
        CollectionModel {
            key: self.canonical_key(),
            name: collection_interface_name(self.canonical_key()),
            element: match self {
                BpyProperty::Collection { fixed_type, .. } => upper_camel_case(fixed_type@),
                _ => Seq::empty(),
            },
        }
    }

    /// The shape under which the value is read: what a getter returns and
    /// what a method hands back. An enumeration is read as text.
    pub open spec fn read_shape(self) -> ShapeModel {
        match self {
            BpyProperty::Boolean { .. } => ShapeModel::Scalar(Element::Bool),
            BpyProperty::BooleanArray { .. } => ShapeModel::Sequence(Element::Bool),
            BpyProperty::Int { number, .. } => ShapeModel::Scalar(integer_element(number)),
            BpyProperty::IntArray { number, .. } => ShapeModel::Sequence(integer_element(number)),
            BpyProperty::Float { .. } => ShapeModel::Scalar(Element::Float),
            BpyProperty::FloatArray { .. } => ShapeModel::Sequence(Element::Float),
            BpyProperty::String { .. } => ShapeModel::Text,
            BpyProperty::Enum { .. } => ShapeModel::Text,
            BpyProperty::Pointer { fixed_type, .. } => ShapeModel::Object(
                upper_camel_case(fixed_type@),
            ),
            BpyProperty::Collection { .. } => ShapeModel::Object(
                collection_interface_name(self.canonical_key()),
            ),
        }
    }

    /// The shape under which the value is written: what a setter or a method
    /// takes. Arrays and text are borrowed, an object is passed as the bare
    /// handle, an enumeration as text.
    pub open spec fn write_shape(self) -> ShapeModel {
        match self {
            BpyProperty::Boolean { .. } => ShapeModel::Scalar(Element::Bool),
            BpyProperty::BooleanArray { .. } => ShapeModel::Slice(Element::Bool),
            BpyProperty::Int { number, .. } => ShapeModel::Scalar(integer_element(number)),
            BpyProperty::IntArray { number, .. } => ShapeModel::Slice(integer_element(number)),
            BpyProperty::Float { .. } => ShapeModel::Scalar(Element::Float),
            BpyProperty::FloatArray { .. } => ShapeModel::Slice(Element::Float),
            BpyProperty::String { .. } => ShapeModel::TextView,
            BpyProperty::Enum { .. } => ShapeModel::TextView,
            BpyProperty::Pointer { .. } => ShapeModel::Handle,
            BpyProperty::Collection { .. } => ShapeModel::Handle,
        }
    }

    /// The type that a getter returns: the read shape, nullable unless the
    /// host never yields none.
    pub open spec fn return_type(self) -> TypeModel {
        TypeModel { shape: self.read_shape(), nullable: !self.item().is_never_none }
    }

    /// The type that a setter takes: the write shape, nullable unless the
    /// host never yields none.
    pub open spec fn setter_type(self) -> TypeModel {
        TypeModel { shape: self.write_shape(), nullable: !self.item().is_never_none }
    }

    /// The parameter of a method for this descriptor: named in snake case,
    /// typed by the write shape, nullable unless the caller must pass it.
    pub open spec fn parameter(self) -> ParameterModel {
        ParameterModel {
            name: safe_ident_text(snake_case(self.item().identifier@)),
            ty: TypeModel { shape: self.write_shape(), nullable: !self.item().is_required },
        }
    }

    /// How a response is turned into the return type.
    pub open spec fn decoder(self) -> DecoderModel {
        match self.read_shape() {
            ShapeModel::Object(interface) => DecoderModel::Handle {
                interface,
                nullable: !self.item().is_never_none,
            },
            _ => DecoderModel::Direct,
        }
    }

    /// The keys that are registered once this descriptor's return type has
    /// been asked for.
    pub open spec fn defined_after(self, defined: Set<Seq<char>>) -> Set<Seq<char>> {
        if self is Collection {
            defined.insert(self.canonical_key())
        } else {
            defined
        }
    }

    /// The collection interfaces that asking for this descriptor's return
    /// type emits: the interface of a collection whose key is not registered
    /// yet, and nothing otherwise.
    pub open spec fn fresh_collections(self, defined: Set<Seq<char>>) -> Seq<CollectionModel> {
        if self is Collection && !defined.contains(self.canonical_key()) {
            seq![self.collection_interface()]
        } else {
            Seq::empty()
        }
    }

    /// The name of the getter: the host's identifier, made declarable.
    pub fn as_getter_attr_name(&self) -> (name: String)
        ensures
            name@ == safe_ident_text(self.item().identifier@),
    {
        safe_ident(self.as_item().identifier.as_str())
    }

    /// The name of the setter: the host's identifier behind `set_`.
    pub fn as_setter_attr_name(&self) -> (name: String)
        ensures
            name@ == "set_"@ + self.item().identifier@,
    {
        let mut name = String::from_str("set_");
        name.append(self.as_item().identifier.as_str());
        name
    }

    /// The shape under which the value is written.
    fn as_write_shape(&self) -> (shape: Shape)
        ensures
            shape@ == self.write_shape(),
    {
        match self {
            BpyProperty::Boolean { .. } => Shape::Scalar(Element::Bool),
            BpyProperty::BooleanArray { .. } => Shape::Slice(Element::Bool),
            BpyProperty::Int { number, .. } => if number.is_unsigned() {
                Shape::Scalar(Element::Unsigned)
            } else {
                Shape::Scalar(Element::Signed)
            },
            BpyProperty::IntArray { number, .. } => if number.is_unsigned() {
                Shape::Slice(Element::Unsigned)
            } else {
                Shape::Slice(Element::Signed)
            },
            BpyProperty::Float { .. } => Shape::Scalar(Element::Float),
            BpyProperty::FloatArray { .. } => Shape::Slice(Element::Float),
            BpyProperty::String { .. } => Shape::TextView,
            BpyProperty::Enum { .. } => Shape::TextView,
            BpyProperty::Pointer { .. } => Shape::Handle,
            BpyProperty::Collection { .. } => Shape::Handle,
        }
    }

    /// The parameter under which a method takes this descriptor's value.
    pub fn as_method_parameter(&self) -> (parameter: Parameter)
        ensures
            parameter@ == self.parameter(),
    {
        let shape = self.as_write_shape();
        let argname = to_snek_case(self.as_item().identifier.as_str());
        let argname = safe_ident(argname.as_str());
        Parameter { name: argname, ty: TypeExpr { shape, nullable: !self.as_item().is_required } }
    }

    /// The type under which a setter takes this descriptor's value.
    pub fn as_setter_parameter_type(&self) -> (ty: TypeExpr)
        ensures
            ty@ == self.setter_type(),
    {
        let shape = self.as_write_shape();
        TypeExpr { shape, nullable: !self.as_item().is_never_none }
    }

    /// The type under which this descriptor's value is read.
    ///
    /// A collection is read through the interface registered under its
    /// canonical key. Where no interface has been emitted for that key in
    /// this run, one is appended to `extra_items` and the key is recorded in
    /// `defined`; every later request for the same key finds it there and
    /// emits nothing.
    pub fn as_return_type(
        &self,
        extra_items: &mut Vec<CollectionInterface>,
        defined: &mut DefinedCollections,
    ) -> (ty: TypeExpr)
        ensures
            ty@ == self.return_type(),
            final(defined)@ == self.defined_after(old(defined)@),
            views(final(extra_items)@) == views(old(extra_items)@)
                + self.fresh_collections(old(defined)@),
    {
        let shape = match self {
            BpyProperty::Boolean { .. } => Shape::Scalar(Element::Bool),
            BpyProperty::BooleanArray { .. } => Shape::Sequence(Element::Bool),
            BpyProperty::Int { number, .. } => if number.is_unsigned() {
                Shape::Scalar(Element::Unsigned)
            } else {
                Shape::Scalar(Element::Signed)
            },
            BpyProperty::IntArray { number, .. } => if number.is_unsigned() {
                Shape::Sequence(Element::Unsigned)
            } else {
                Shape::Sequence(Element::Signed)
            },
            BpyProperty::Float { .. } => Shape::Scalar(Element::Float),
            BpyProperty::FloatArray { .. } => Shape::Sequence(Element::Float),
            BpyProperty::String { .. } => Shape::Text,
            BpyProperty::Enum { .. } => Shape::Text,
            BpyProperty::Pointer { fixed_type, .. } => Shape::Object(
                to_upper_camel_case(fixed_type.as_str()),
            ),
            BpyProperty::Collection { fixed_type, collection, .. } => {
                let key: &str = match collection {
                    Some(specialised) => specialised.as_str(),
                    None => fixed_type.as_str(),
                };
                let return_type = name_collection_interface(key);
                if !defined.contains(key) {
                    defined.insert(String::from_str(key));
                    let interface = CollectionInterface {
                        key: String::from_str(key),
                        name: return_type.clone(),
                        element: to_upper_camel_case(fixed_type.as_str()),
                    };
                    extra_items.push(interface);
                }
                Shape::Object(return_type)
            },
        };
        TypeExpr { shape, nullable: !self.as_item().is_never_none }
    }

    /// How the response to a call is turned into the type under which this
    /// descriptor's value is read: a pointer or a collection arrives as a
    /// handle, which is boxed as its interface; anything else is
    /// deserialised as it stands.
    pub fn as_parsed_intermediate_value(&self) -> (decoder: Decoder)
        ensures
            decoder@ == self.decoder(),
    {
        match self {
            BpyProperty::Boolean { .. }
            | BpyProperty::Int { .. }
            | BpyProperty::Float { .. }
            | BpyProperty::String { .. }
            | BpyProperty::BooleanArray { .. }
            | BpyProperty::IntArray { .. }
            | BpyProperty::FloatArray { .. } => Decoder::Direct,
            BpyProperty::Pointer { item, fixed_type } => Decoder::Handle {
                interface: to_upper_camel_case(fixed_type.as_str()),
                nullable: !item.is_never_none,
            },
            BpyProperty::Collection { item, fixed_type, collection } => {
                let key: &str = match collection {
                    Some(specialised) => specialised.as_str(),
                    None => fixed_type.as_str(),
                };
                Decoder::Handle {
                    interface: name_collection_interface(key),
                    nullable: !item.is_never_none,
                }
            },
            BpyProperty::Enum { .. } => Decoder::Direct,
        }
    }
}

/// An integer property or parameter is mapped onto the unsigned
/// representation exactly when its hard and its soft lower bound are both
/// zero, and onto the signed one otherwise: as a scalar, as the elements of
/// the array that is read, and as those of the view that is written.
pub proof fn integer_sign_rule(property: BpyProperty)
    requires
        property is Int || property is IntArray,
    ensures
        ({
            let number = match property {
                BpyProperty::Int { number, .. } => number,
                BpyProperty::IntArray { number, .. } => number,
                _ => arbitrary(),
            };
            let zero_bounds = number.hard_min == 0 && number.soft_min == 0;
            let unsigned = if zero_bounds {
                Element::Unsigned
            } else {
                Element::Signed
            };
            &&& property is Int ==> property.return_type().shape == ShapeModel::Scalar(unsigned)
            &&& property is Int ==> property.setter_type().shape == ShapeModel::Scalar(unsigned)
            &&& property is Int ==> property.parameter().ty.shape == ShapeModel::Scalar(unsigned)
            &&& property is IntArray ==> property.return_type().shape == ShapeModel::Sequence(
                unsigned,
            )
            &&& property is IntArray ==> property.setter_type().shape == ShapeModel::Slice(unsigned)
            &&& property is IntArray ==> property.parameter().ty.shape == ShapeModel::Slice(
                unsigned,
            )
        }),
{
}

} // verus!
