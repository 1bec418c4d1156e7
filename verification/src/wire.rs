//! The values that cross the bridge, and how typed values become them and
//! come back.

use crate::model::{Element, Shape, ShapeModel, TypeExpr, TypeModel};
use crate::naming::str_eq;
use vstd::prelude::*;

verus! {

/// The one concrete type behind every interface: a reference to an object
/// of the host. It owns nothing there, and two handles are the same exactly
/// when their references are.
#[derive(Clone, Copy, Debug, PartialEq, Eq, Structural, Hash)]
pub struct BpyPtr {
    ptr: i64,
}

impl BpyPtr {
    /// The handle for a reference that the host has given out.
    pub fn new(ptr: i64) -> (handle: BpyPtr)
        ensures
            handle.reference() == ptr,
    {
        BpyPtr { ptr }
    }

    /// The reference behind the handle.
    pub closed spec fn reference(&self) -> i64 {
        self.ptr
    }

    /// The reference behind the handle.
    #[verifier::when_used_as_spec(reference)]
    pub fn ptr(&self) -> (reference: i64)
        ensures
            reference == self.reference(),
    {
        self.ptr
    }

    /// Two handles with the same reference are the same handle.
    pub proof fn lemma_same_reference(self, other: BpyPtr)
        ensures
            self.reference() == other.reference() <==> self == other,
    {
    }
}

/// A value of the wire format.
#[derive(Debug, PartialEq, Eq)]
pub enum Value {
    /// The host's "none".
    Null,
    Bool(bool),
    /// A whole number. The wire carries those from the least 64-bit signed
    /// to the greatest 64-bit unsigned integer.
    Integer(i128),
    /// A number with a fraction, held as the bits of its 64-bit binary
    /// representation. Nothing here looks into them.
    Real { bits: u64 },
    Text(String),
    List(Vec<Value>),
    /// Named values, in the order in which they were written.
    Object(Vec<(String, Value)>),
}

/// The name under which a handle's reference travels.
pub open spec fn reference_key() -> Seq<char> {
    "@ptr"@
}

/// Whether a whole number of the wire fits the signed 64-bit integers.
pub open spec fn is_signed(n: int) -> bool {
    i64::MIN <= n <= i64::MAX
}

/// Whether a whole number of the wire fits the unsigned 64-bit integers.
pub open spec fn is_unsigned(n: int) -> bool {
    0 <= n <= u64::MAX
}

/// Whether a value of the wire is the handle with the given reference: a
/// map of one entry, named by [`reference_key`], which holds the reference.
pub open spec fn is_reference_to(value: Value, reference: i64) -> bool {
    value matches Value::Object(entries) && entries@.len() == 1 && entries@[0].0@
        == reference_key() && entries@[0].1 == Value::Integer(reference as i128)
}

/// The reference that a value of the wire carries, if it is a handle: the
/// one entry of a map, named by [`reference_key`], with a whole number that
/// fits the signed 64-bit integers.
pub open spec fn decoded_reference(value: Value) -> Option<i64> {
    match value {
        Value::Object(entries) => if entries@.len() == 1 && entries@[0].0@ == reference_key() {
            match entries@[0].1 {
                Value::Integer(n) => if is_signed(n as int) {
                    Some(n as i64)
                } else {
                    None
                },
                _ => None,
            }
        } else {
            None
        },
        _ => None,
    }
}

/// Whether a value of the wire can be read as an element of the given
/// kind. A whole number can be read where a fraction is expected.
pub open spec fn holds(value: Value, element: Element) -> bool {
    match element {
        Element::Bool => value is Bool,
        Element::Unsigned => value matches Value::Integer(n) && is_unsigned(n as int),
        Element::Signed => value matches Value::Integer(n) && is_signed(n as int),
        Element::Float => value is Real || value is Integer,
    }
}

/// Whether a value of the wire has the given shape.
pub open spec fn conforms_to_shape(value: Value, shape: ShapeModel) -> bool {
    match shape {
        ShapeModel::Scalar(element) => holds(value, element),
        ShapeModel::Sequence(element) | ShapeModel::Slice(element) => value matches Value::List(
            items,
        ) && forall|i: int| 0 <= i < items@.len() ==> holds(#[trigger] items@[i], element),
        ShapeModel::Text | ShapeModel::TextView => value is Text,
        ShapeModel::Handle | ShapeModel::Object(_) => decoded_reference(value) is Some,
    }
}

/// Whether a value of the wire can be read as the given type: it is the
/// host's "none" where the type is nullable, or it has the type's shape.
pub open spec fn conforms(value: Value, ty: TypeModel) -> bool {
    (ty.nullable && value is Null) || conforms_to_shape(value, ty.shape)
}

impl BpyPtr {
    /// Reads a handle from a value of the wire. `None` where the value is
    /// no handle.
    pub fn from_value(value: &Value) -> (handle: Option<BpyPtr>)
        ensures
            handle is Some == decoded_reference(*value) is Some,
            handle matches Some(h) ==> decoded_reference(*value) == Some(h.reference()),
    {
        match value {
            Value::Object(entries) => {
                if entries.len() == 1 && str_eq(entries[0].0.as_str(), "@ptr") {
                    match &entries[0].1 {
                        Value::Integer(n) => {
                            if -0x8000_0000_0000_0000 <= *n && *n <= 0x7fff_ffff_ffff_ffff {
                                Some(BpyPtr { ptr: *n as i64 })
                            } else {
                                None
                            }
                        },
                        _ => None,
                    }
                } else {
                    None
                }
            },
            _ => None,
        }
    }

    /// Writes the handle as a value of the wire.
    pub fn to_value(&self) -> (value: Value)
        ensures
            is_reference_to(value, self.reference()),
            decoded_reference(value) == Some(self.reference()),
    {
        let mut entries: Vec<(String, Value)> = Vec::new();
        entries.push(("@ptr".to_owned(), Value::Integer(self.ptr as i128)));
        Value::Object(entries)
    }
}

/// A typed value of one of the simple kinds: what a scalar property that is
/// no fraction holds.
#[derive(Clone, Debug, PartialEq, Eq)]
pub enum Scalar {
    Bool(bool),
    Unsigned(u64),
    Signed(i64),
    Text(String),
}

impl Scalar {
    /// The value of the wire that stands for the typed value.
    pub open spec fn encoding(self) -> Value {
        match self {
            Scalar::Bool(b) => Value::Bool(b),
            Scalar::Unsigned(n) => Value::Integer(n as i128),
            Scalar::Signed(n) => Value::Integer(n as i128),
            Scalar::Text(text) => Value::Text(text),
        }
    }

    /// Whether the typed value is of the kind that the shape asks for.
    /// Text is written as a view and read as owned text.
    pub open spec fn fits(self, shape: ShapeModel) -> bool {
        match self {
            Scalar::Bool(_) => shape == ShapeModel::Scalar(Element::Bool),
            Scalar::Unsigned(_) => shape == ShapeModel::Scalar(Element::Unsigned),
            Scalar::Signed(_) => shape == ShapeModel::Scalar(Element::Signed),
            Scalar::Text(_) => shape is Text || shape is TextView,
        }
    }

    /// Writes the typed value as a value of the wire.
    pub fn encode(self) -> (value: Value)
        ensures
            value == self.encoding(),
    {
        match self {
            Scalar::Bool(b) => Value::Bool(b),
            Scalar::Unsigned(n) => Value::Integer(n as i128),
            Scalar::Signed(n) => Value::Integer(n as i128),
            Scalar::Text(text) => Value::Text(text),
        }
    }

    /// Reads a value of the wire as the simple kind that `shape` asks for.
    /// `None` where the value is of another kind or out of the kind's
    /// range, and for every shape that is no simple kind.
    pub fn decode(shape: &Shape, value: &Value) -> (typed: Option<Scalar>)
        ensures
            typed == decoded(shape@, *value),
    {
        match shape {
            Shape::Scalar(Element::Bool) => match value {
                Value::Bool(b) => Some(Scalar::Bool(*b)),
                _ => None,
            },
            Shape::Scalar(Element::Unsigned) => match value {
                Value::Integer(n) => if 0 <= *n && *n <= 0xffff_ffff_ffff_ffff {
                    Some(Scalar::Unsigned(*n as u64))
                } else {
                    None
                },
                _ => None,
            },
            Shape::Scalar(Element::Signed) => match value {
                Value::Integer(n) => if -0x8000_0000_0000_0000 <= *n && *n
                    <= 0x7fff_ffff_ffff_ffff {
                    Some(Scalar::Signed(*n as i64))
                } else {
                    None
                },
                _ => None,
            },
            Shape::Text | Shape::TextView => match value {
                Value::Text(text) => Some(Scalar::Text(text.clone())),
                _ => None,
            },
            _ => None,
        }
    }
}

/// The typed value that a value of the wire stands for when it is read as
/// the simple kind that `shape` asks for.
pub open spec fn decoded(shape: ShapeModel, value: Value) -> Option<Scalar> {
    match shape {
        ShapeModel::Scalar(Element::Bool) => match value {
            Value::Bool(b) => Some(Scalar::Bool(b)),
            _ => None,
        },
        ShapeModel::Scalar(Element::Unsigned) => match value {
            Value::Integer(n) => if is_unsigned(n as int) {
                Some(Scalar::Unsigned(n as u64))
            } else {
                None
            },
            _ => None,
        },
        ShapeModel::Scalar(Element::Signed) => match value {
            Value::Integer(n) => if is_signed(n as int) {
                Some(Scalar::Signed(n as i64))
            } else {
                None
            },
            _ => None,
        },
        ShapeModel::Text | ShapeModel::TextView => match value {
            Value::Text(text) => Some(Scalar::Text(text)),
            _ => None,
        },
        _ => None,
    }
}

/// Reading what was written as a simple kind yields the typed value again.
pub proof fn lemma_decode_encode(scalar: Scalar, shape: ShapeModel)
    requires
        scalar.fits(shape),
    ensures
        decoded(shape, scalar.encoding()) == Some(scalar),
{
}

/// The typed value, or the absence of one, that a value of the wire stands
/// for when it is read as the type `ty`: the host's "none" is read as
/// absence where the type is nullable. `None` where the value cannot be
/// read as the type.
pub open spec fn decoded_nullable(ty: TypeModel, value: Value) -> Option<Option<Scalar>> {
    if value is Null {
        if ty.nullable {
            Some(None)
        } else {
            None
        }
    } else {
        match decoded(ty.shape, value) {
            Some(typed) => Some(Some(typed)),
            None => None,
        }
    }
}

/// The value of the wire that stands for a typed value or its absence.
pub open spec fn nullable_encoding(typed: Option<Scalar>) -> Value {
    match typed {
        Some(scalar) => scalar.encoding(),
        None => Value::Null,
    }
}

/// Writes a typed value, or the host's "none" in its absence.
pub fn encode_nullable(typed: Option<Scalar>) -> (value: Value)
    ensures
        value == nullable_encoding(typed),
{
    match typed {
        Some(scalar) => scalar.encode(),
        None => Value::Null,
    }
}

/// Reads a value of the wire as the type `ty`, where its shape is a simple
/// kind.
pub fn decode_nullable(ty: &TypeExpr, value: &Value) -> (typed: Option<Option<Scalar>>)
    ensures
        typed == decoded_nullable(ty@, *value),
{
    match value {
        Value::Null => if ty.nullable {
            Some(None)
        } else {
            None
        },
        _ => match Scalar::decode(&ty.shape, value) {
            Some(typed) => Some(Some(typed)),
            None => None,
        },
    }
}

impl Value {
    /// Whether the value can be read as an element of the given kind.
    fn holds_element(&self, element: Element) -> (fits: bool)
        ensures
            fits == holds(*self, element),
    {
        match element {
            Element::Bool => match self {
                Value::Bool(_) => true,
                _ => false,
            },
            Element::Unsigned => match self {
                Value::Integer(n) => 0 <= *n && *n <= 0xffff_ffff_ffff_ffff,
                _ => false,
            },
            Element::Signed => match self {
                Value::Integer(n) => -0x8000_0000_0000_0000 <= *n && *n <= 0x7fff_ffff_ffff_ffff,
                _ => false,
            },
            Element::Float => match self {
                Value::Real { .. } => true,
                Value::Integer(_) => true,
                _ => false,
            },
        }
    }

    /// Whether every item of the list can be read as an element of the
    /// given kind.
    fn all_hold(items: &Vec<Value>, element: Element) -> (fit: bool)
        ensures
            fit == forall|i: int| 0 <= i < items@.len() ==> holds(#[trigger] items@[i], element),
    {
        let mut i: usize = 0;
        while i < items.len()
            invariant
                i <= items.len(),
                forall|k: int| 0 <= k < i ==> holds(#[trigger] items@[k], element),
            decreases items.len() - i,
        {
            if !items[i].holds_element(element) {
                return false;
            }
            i += 1;
        }
        true
    }

    /// Whether the response of the host can be read as the type that the
    /// emitted member expects. A member that is handed anything else cannot
    /// go on.
    pub fn conforms_to(&self, ty: &TypeExpr) -> (fits: bool)
        ensures
            fits == conforms(*self, ty@),
    {
        if ty.nullable {
            if let Value::Null = self {
                return true;
            }
        }
        match &ty.shape {
            Shape::Scalar(element) => self.holds_element(*element),
            Shape::Sequence(element) => match self {
                Value::List(items) => Value::all_hold(items, *element),
                _ => false,
            },
            Shape::Slice(element) => match self {
                Value::List(items) => Value::all_hold(items, *element),
                _ => false,
            },
            Shape::Text => match self {
                Value::Text(_) => true,
                _ => false,
            },
            Shape::TextView => match self {
                Value::Text(_) => true,
                _ => false,
            },
            Shape::Handle => BpyPtr::from_value(self).is_some(),
            Shape::Object(_) => BpyPtr::from_value(self).is_some(),
        }
    }
}

} // verus!
