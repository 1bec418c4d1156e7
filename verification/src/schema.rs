//! The descriptor model: what a snapshot of the host's reflection data holds.

use vstd::prelude::*;

verus! {

/// The fields that every property and every parameter carries.
#[derive(Clone, Debug, PartialEq, Eq)]
pub struct BpyPropertyItem {
    /// The host's name of the property or parameter.
    pub identifier: String,
    /// Human-readable description, if the host gives one.
    pub description: Option<String>,
    /// A parameter that the caller must pass.
    pub is_required: bool,
    /// Defined at run time rather than by the host's static schema.
    pub is_runtime: bool,
    /// A parameter through which a method hands back its result.
    pub is_output: bool,
    /// The host never yields its "none" for this value.
    pub is_never_none: bool,
}

/// Declared extent of an array property. Informational: nothing is enforced
/// against it when a call is made.
#[derive(Clone, Debug, PartialEq, Eq)]
pub struct BpyPropertyArray {
    pub dimensions: [u32; 3],
    pub length: u32,
}

/// Declared range of an integer property.
#[derive(Clone, Copy, Debug, PartialEq, Eq)]
pub struct BpyPropertyNumber {
    pub hard_min: i64,
    pub hard_max: i64,
    pub soft_min: i64,
    pub soft_max: i64,
}

impl BpyPropertyNumber {
    /// An integer property is unsigned exactly when both of its lower bounds
    /// are zero.
    pub open spec fn unsigned(&self) -> bool {
        self.hard_min == 0 && self.soft_min == 0
    }

    /// Whether the range maps onto the unsigned representation.
    #[verifier::when_used_as_spec(unsigned)]
    pub fn is_unsigned(&self) -> (unsigned: bool)
        ensures
            unsigned == self.unsigned(),
            unsigned <==> (self.hard_min == self.soft_min && self.soft_min == 0),
    {
        self.hard_min == self.soft_min && self.soft_min == 0
    }
}

/// One member of an enumeration property.
#[derive(Clone, Debug, PartialEq, Eq)]
pub struct BpyPropertyEnumItem {
    pub id: String,
    pub name: String,
    pub value: i32,
    pub description: String,
}

/// A property of a class, or a parameter of a method or operator.
///
/// Held is what the generator reads or hands on. The declared range of a
/// fractional number and the defaults of arrays decide nothing and are left
/// with the document.
#[derive(Clone, Debug, PartialEq, Eq)]
pub enum BpyProperty {
    Boolean { item: BpyPropertyItem },
    BooleanArray { item: BpyPropertyItem, array: BpyPropertyArray },
    Int { item: BpyPropertyItem, number: BpyPropertyNumber },
    IntArray { item: BpyPropertyItem, array: BpyPropertyArray, number: BpyPropertyNumber },
    Float { item: BpyPropertyItem },
    FloatArray { item: BpyPropertyItem, array: BpyPropertyArray },
    String { item: BpyPropertyItem, length_max: u32, default: Option<String> },
    Enum { item: BpyPropertyItem, items: Vec<BpyPropertyEnumItem> },
    Pointer { item: BpyPropertyItem, fixed_type: String },
    Collection { item: BpyPropertyItem, fixed_type: String, collection: Option<String> },
}

impl BpyProperty {
    /// The shared fields of the descriptor, whatever its kind.
    pub open spec fn item(self) -> BpyPropertyItem {
        match self {
            BpyProperty::Boolean { item } => item,
            BpyProperty::BooleanArray { item, .. } => item,
            BpyProperty::Int { item, .. } => item,
            BpyProperty::IntArray { item, .. } => item,
            BpyProperty::Float { item } => item,
            BpyProperty::FloatArray { item, .. } => item,
            BpyProperty::String { item, .. } => item,
            BpyProperty::Enum { item, .. } => item,
            BpyProperty::Pointer { item, .. } => item,
            BpyProperty::Collection { item, .. } => item,
        }
    }

    /// The shared fields of the descriptor, whatever its kind.
    pub fn as_item(&self) -> (shared: &BpyPropertyItem)
        ensures
            *shared == self.item(),
    {
        match self {
            BpyProperty::Boolean { item } => item,
            BpyProperty::BooleanArray { item, .. } => item,
            BpyProperty::Int { item, .. } => item,
            BpyProperty::IntArray { item, .. } => item,
            BpyProperty::Float { item } => item,
            BpyProperty::FloatArray { item, .. } => item,
            BpyProperty::String { item, .. } => item,
            BpyProperty::Enum { item, .. } => item,
            BpyProperty::Pointer { item, .. } => item,
            BpyProperty::Collection { item, .. } => item,
        }
    }

    /// Whether a method hands its result back through this parameter.
    pub fn is_output(&self) -> (output: bool)
        ensures
            output == self.item().is_output,
    {
        self.as_item().is_output
    }
}

/// A method of a class. Only the first kind is described well enough to be
/// called; the others are known by name alone.
#[derive(Clone, Debug, PartialEq, Eq)]
pub enum BpyMethod {
    Rna { description: String, use_self: bool, use_self_type: bool, parameters: Vec<BpyProperty> },
    Builtin,
    MethodDescriptor,
    PropertyDeferred,
    Function,
    Method,
}

/// A class of the host, with the name of the class it derives from.
#[derive(Clone, Debug, PartialEq, Eq)]
pub struct BpyStructure {
    pub name: String,
    pub parent: String,
    /// The properties by their host name, in the order of the snapshot.
    pub properties: Vec<(String, BpyProperty)>,
    /// The methods by their host name, in the order of the snapshot.
    pub methods: Vec<(String, BpyMethod)>,
}

/// A global operation of the host, invoked by namespace and name.
#[derive(Clone, Debug, PartialEq, Eq)]
pub struct BpyOperator {
    pub description: String,
    pub parameters: Vec<BpyProperty>,
}

/// A whole snapshot: the classes, and the operators by namespace and name.
#[derive(Clone, Debug, PartialEq, Eq)]
pub struct Schema {
    pub classes: Vec<BpyStructure>,
    pub operators: Vec<(String, Vec<(String, BpyOperator)>)>,
}

} // verus!
