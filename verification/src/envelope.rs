//! The envelope that carries every request to the host, and the four
//! requests that the emitted members make.

use crate::naming::str_eq;
use crate::schema::BpyProperty;
use crate::wire::{
    decoded_nullable, is_reference_to, nullable_encoding, BpyPtr, Scalar, Value,
};
use vstd::prelude::*;

verus! {

/// The named values that a list of entries stands for, where an entry
/// replaces any earlier one of the same name.
pub open spec fn named_values(entries: Seq<(String, Value)>) -> Map<Seq<char>, Value>
    decreases entries.len(),
{
    if entries.len() == 0 {
        Map::empty()
    } else {
        named_values(entries.drop_last()).insert(entries.last().0@, entries.last().1)
    }
}

/// The named arguments of a call.
#[derive(Debug, PartialEq, Eq)]
pub struct Kwargs(pub Vec<(String, Value)>);

impl View for Kwargs {
    type V = Map<Seq<char>, Value>;

    open spec fn view(&self) -> Map<Seq<char>, Value> {
        named_values(self.0@)
    }
}

impl Kwargs {
    /// No named arguments.
    pub fn new() -> (kwargs: Kwargs)
        ensures
            kwargs@ == Map::<Seq<char>, Value>::empty(),
            kwargs.0@.len() == 0,
    {
        Kwargs(Vec::new())
    }

    /// The named arguments that a list of pairs stands for. Where a name
    /// occurs more than once, the last pair with that name counts.
    pub fn from(pairs: Vec<(String, Value)>) -> (kwargs: Kwargs)
        ensures
            kwargs@ == named_values(pairs@),
            kwargs.0 == pairs,
    {
        Kwargs(pairs)
    }

    /// Sets the argument `name`, in place of any that had the name.
    pub fn insert(&mut self, name: String, value: Value)
        ensures
            final(self)@ == old(self)@.insert(name@, value),
            final(self).0@ == old(self).0@.push((name, value)),
    {
        proof {
            assert(self.0@.push((name, value)).drop_last() =~= self.0@);
        }
        self.0.push((name, value));
    }

    /// Whether there are no named arguments.
    pub fn is_empty(&self) -> (empty: bool)
        ensures
            empty == (self.0@.len() == 0),
            empty == (self@ == Map::<Seq<char>, Value>::empty()),
    {
        proof {
            if self.0@.len() > 0 {
                assert(!Map::<Seq<char>, Value>::empty().dom().contains(self.0@.last().0@));
            }
        }
        self.0.len() == 0
    }

    /// The argument `name`, if it is set.
    pub fn get(&self, name: &str) -> (found: Option<&Value>)
        ensures
            found is Some == self@.dom().contains(name@),
            found matches Some(value) ==> *value == self@[name@],
    {
        let mut i: usize = self.0.len();
        assert(self.0@.take(i as int) =~= self.0@);
        while i > 0
            invariant
                i <= self.0.len(),
                self@.dom().contains(name@) == named_values(self.0@.take(i as int)).dom().contains(
                    name@,
                ),
                self@.dom().contains(name@) ==> self@[name@] == named_values(
                    self.0@.take(i as int),
                )[name@],
            decreases i,
        {
            proof {
                assert(self.0@.take(i as int).drop_last() =~= self.0@.take(i - 1));
            }
            i -= 1;
            if str_eq(self.0[i].0.as_str(), name) {
                return Some(&self.0[i].1);
            }
        }
        None
    }
}

/// The envelope of a request: the object that the request is about, the
/// positional arguments, and the named arguments.
#[derive(Debug, PartialEq, Eq)]
pub struct PyArgs {
    pub target: Option<BpyPtr>,
    pub args: Option<Vec<Value>>,
    pub kwargs: Option<Kwargs>,
}

/// The view of a [`PyArgs`].
pub struct PyArgsModel {
    pub target: Option<BpyPtr>,
    pub args: Option<Seq<Value>>,
    pub kwargs: Option<Map<Seq<char>, Value>>,
}

impl View for PyArgs {
    type V = PyArgsModel;

    open spec fn view(&self) -> PyArgsModel {
        PyArgsModel {
            target: self.target,
            args: match self.args {
                Some(args) => Some(args@),
                None => None,
            },
            kwargs: match self.kwargs {
                Some(kwargs) => Some(kwargs@),
                None => None,
            },
        }
    }
}

/// The envelope that asks for an attribute of `target`: the receiver, and
/// no arguments of either kind.
pub open spec fn attribute_get(target: BpyPtr) -> PyArgsModel {
    PyArgsModel { target: Some(target), args: None, kwargs: None }
}

/// The envelope that sets an attribute of `target`: the receiver, and the
/// new value as the one positional argument.
pub open spec fn attribute_set(target: BpyPtr, value: Value) -> PyArgsModel {
    PyArgsModel { target: Some(target), args: Some(seq![value]), kwargs: None }
}

/// The envelope of a call: the receiver, if the call has one, the
/// positional arguments in order, and the named arguments, if any are
/// given.
pub open spec fn call(
    target: Option<BpyPtr>,
    args: Seq<Value>,
    kwargs: Option<Map<Seq<char>, Value>>,
) -> PyArgsModel {
    PyArgsModel { target, args: Some(args), kwargs }
}

/// The envelope that calls an operator with the given named arguments: no
/// receiver, no positional arguments, and the named arguments unless there
/// are none.
pub open spec fn operator_call(kwargs: Map<Seq<char>, Value>) -> PyArgsModel {
    PyArgsModel {
        target: None,
        args: Some(Seq::empty()),
        kwargs: if kwargs == Map::<Seq<char>, Value>::empty() {
            None
        } else {
            Some(kwargs)
        },
    }
}

/// Whether a value of the wire is the envelope as the host expects it: a
/// map of three entries, `self`, `args` and `kwargs` in this order, which
/// hold the receiver as a handle, the positional arguments as a list, and
/// the named arguments as a map, each replaced by the host's "none" where
/// the envelope has none.
pub open spec fn frames(value: Value, envelope: PyArgs) -> bool {
    &&& value matches Value::Object(entries)
    &&& entries@.len() == 3
    &&& entries@[0].0@ == "self"@
    &&& match envelope.target {
        Some(receiver) => is_reference_to(entries@[0].1, receiver.reference()),
        None => entries@[0].1 is Null,
    }
    &&& entries@[1].0@ == "args"@
    &&& match envelope.args {
        Some(args) => entries@[1].1 == Value::List(args),
        None => entries@[1].1 is Null,
    }
    &&& entries@[2].0@ == "kwargs"@
    &&& match envelope.kwargs {
        Some(kwargs) => entries@[2].1 == Value::Object(kwargs.0),
        None => entries@[2].1 is Null,
    }
}

impl PyArgs {
    /// Writes the envelope as the value of the wire that the host expects.
    pub fn into_value(self) -> (value: Value)
        ensures
            frames(value, self),
    {
        let PyArgs { target, args, kwargs } = self;
        let mut entries: Vec<(String, Value)> = Vec::new();
        entries.push(
            (
                "self".to_owned(),
                match target {
                    Some(receiver) => receiver.to_value(),
                    None => Value::Null,
                },
            ),
        );
        entries.push(
            (
                "args".to_owned(),
                match args {
                    Some(args) => Value::List(args),
                    None => Value::Null,
                },
            ),
        );
        entries.push(
            (
                "kwargs".to_owned(),
                match kwargs {
                    Some(kwargs) => Value::Object(kwargs.0),
                    None => Value::Null,
                },
            ),
        );
        Value::Object(entries)
    }

    /// The envelope that asks for an attribute of `target`.
    pub fn new(target: &BpyPtr) -> (envelope: PyArgs)
        ensures
            envelope@ == attribute_get(*target),
    {
        PyArgs { target: Some(*target), args: None, kwargs: None }
    }

    /// The envelope that sets an attribute of `target` to `value`.
    pub fn arg1(target: &BpyPtr, value: Value) -> (envelope: PyArgs)
        ensures
            envelope@ == attribute_set(*target, value),
    {
        let mut args: Vec<Value> = Vec::new();
        args.push(value);
        PyArgs { target: Some(*target), args: Some(args), kwargs: None }
    }

    /// The envelope of a call.
    pub fn argv(target: Option<&BpyPtr>, args: Vec<Value>, kwargs: Option<Kwargs>) -> (envelope:
        PyArgs)
        ensures
            envelope@ == call(
                match target {
                    Some(receiver) => Some(*receiver),
                    None => None,
                },
                args@,
                match kwargs {
                    Some(named) => Some(named@),
                    None => None,
                },
            ),
    {
        PyArgs {
            target: match target {
                Some(receiver) => Some(*receiver),
                None => None,
            },
            args: Some(args),
            kwargs,
        }
    }

    /// The envelope that calls an operator with the given named arguments.
    pub fn named(kwargs: Kwargs) -> (envelope: PyArgs)
        ensures
            envelope@ == operator_call(kwargs@),
    {
        if kwargs.is_empty() {
            PyArgs::argv(None, Vec::new(), None)
        } else {
            PyArgs::argv(None, Vec::new(), Some(kwargs))
        }
    }
}

/// Setting a property of a simple kind and then getting it gives the value
/// back.
///
/// The envelope that sets the property holds the receiver and the written
/// value as its one positional argument. Where the host answers the getter
/// with the value that the setter sent, reading the answer as the type that
/// the property's getter returns yields the value that was written; and so
/// does the absence of a value, where the property is nullable.
pub proof fn lemma_set_then_get(property: BpyProperty, target: BpyPtr, written: Option<Scalar>)
    requires
        property is Boolean || property is Int || property is String,
        written matches Some(scalar) ==> scalar.fits(property.setter_type().shape),
        written is None ==> property.setter_type().nullable,
    ensures
        ({
            let sent = attribute_set(target, nullable_encoding(written));
            &&& sent.target == Some(target)
            &&& sent.kwargs is None
            &&& sent.args matches Some(args) && args.len() == 1 && decoded_nullable(
                property.return_type(),
                args[0],
            ) == Some(written)
        }),
{
}

} // verus!
