//! The emitters: from the descriptors of a class to its interface, and from
//! the operators of a namespace to its callables.

use crate::collections::{
    emitted_collections, lemma_request_concat, lemma_request_push, registered_after,
};
use crate::model::{
    lemma_views_concat, lemma_views_push, text_option, views, Accessor, AccessorModel, CallWrapper,
    CallWrapperModel, Callable, CallableModel, ClassBindings, ClassBindingsModel,
    CollectionInterface, Interface, InterfaceModel, Namespace, NamespaceModel, Output, OutputModel,
    Parameter, ParameterModel, Setter, SetterModel,
};
use crate::naming::{
    safe_ident, safe_ident_text, snake_case, str_eq, to_snek_case, to_upper_camel_case,
    upper_camel_case,
};
use crate::registry::DefinedCollections;
use crate::schema::{BpyMethod, BpyOperator, BpyProperty, BpyStructure};
use vstd::prelude::*;
use vstd::string::*;

verus! {

impl BpyProperty {
    /// Whether the property gets members at all. An enumeration gets none.
    pub open spec fn is_emitted(self) -> bool {
        !(self is Enum)
    }

    /// Whether the property gets a setter beside its getter: not where it
    /// only hands a value out, and not where it is a collection.
    pub open spec fn has_setter(self) -> bool {
        !self.item().is_output && !(self is Collection)
    }

    /// The members that the property gives its interface when the host
    /// knows it as `attribute`.
    pub open spec fn accessor(self, attribute: Seq<char>) -> AccessorModel {
        AccessorModel {
            attribute,
            doc: text_option(self.item().description),
            getter: safe_ident_text(self.item().identifier@),
            ty: self.return_type(),
            decoder: self.decoder(),
            setter: if self.has_setter() {
                Some(
                    SetterModel {
                        name: "set_"@ + self.item().identifier@,
                        ty: self.setter_type(),
                    },
                )
            } else {
                None
            },
        }
    }
}

/// The members that the properties of a class give its interface: those of
/// each emitted property, in order.
pub open spec fn accessors(properties: Seq<(String, BpyProperty)>) -> Seq<AccessorModel>
    decreases properties.len(),
{
    if properties.len() == 0 {
        Seq::empty()
    } else {
        let before = accessors(properties.drop_last());
        let (attribute, property) = properties.last();
        if property.is_emitted() {
            before.push(property.accessor(attribute@))
        } else {
            before
        }
    }
}

/// The descriptors whose return type the properties of a class ask for:
/// each emitted property, in order.
pub open spec fn property_requests(properties: Seq<(String, BpyProperty)>) -> Seq<BpyProperty>
    decreases properties.len(),
{
    if properties.len() == 0 {
        Seq::empty()
    } else {
        let before = property_requests(properties.drop_last());
        let (_, property) = properties.last();
        if property.is_emitted() {
            before.push(property)
        } else {
            before
        }
    }
}

/// A copy of an optional text.
fn clone_text(text: &Option<String>) -> (copy: Option<String>)
    ensures
        text_option(copy) == text_option(*text),
{
    match text {
        Some(t) => Some(t.clone()),
        None => None,
    }
}

/// Emits the getters and setters for the properties of a class.
///
/// Every property but an enumeration gets a getter, which carries the
/// property's description, and a setter unless it only hands a value out or
/// is a collection. The first result holds the collection interfaces that
/// these properties are the first in the run to need.
pub fn property_codegen(
    properties: &Vec<(String, BpyProperty)>,
    defined: &mut DefinedCollections,
) -> (emitted: (Vec<CollectionInterface>, Vec<Accessor>))
    ensures
        views(emitted.1@) == accessors(properties@),
        views(emitted.0@) == emitted_collections(property_requests(properties@), old(defined)@),
        final(defined)@ == registered_after(property_requests(properties@), old(defined)@),
{
    let mut members: Vec<Accessor> = Vec::new();
    let mut extra_items: Vec<CollectionInterface> = Vec::new();
    let ghost start = defined@;
    let mut i: usize = 0;
    while i < properties.len()
        invariant
            i <= properties.len(),
            views(members@) == accessors(properties@.take(i as int)),
            views(extra_items@) == emitted_collections(
                property_requests(properties@.take(i as int)),
                start,
            ),
            defined@ == registered_after(property_requests(properties@.take(i as int)), start),
        decreases properties.len() - i,
    {
        let func_name = &properties[i].0;
        let property = &properties[i].1;
        let ghost seen = properties@.take(i as int);
        proof {
            let next = properties@.take(i + 1);
            assert(next.drop_last() =~= seen);
        }
        match property {
            BpyProperty::Enum { .. } => {},
            _ => {
                let getter = property.as_getter_attr_name();
                let setter = property.as_setter_attr_name();
                let setter_param = property.as_setter_parameter_type();
                let return_type = property.as_return_type(&mut extra_items, defined);
                let description = clone_text(&property.as_item().description);
                let parser = property.as_parsed_intermediate_value();
                let writable = match property {
                    BpyProperty::Collection { .. } => false,
                    _ => !property.is_output(),
                };
                let member = Accessor {
                    attribute: func_name.clone(),
                    doc: description,
                    getter,
                    ty: return_type,
                    decoder: parser,
                    setter: if writable {
                        Some(Setter { name: setter, ty: setter_param })
                    } else {
                        None
                    },
                };
                proof {
                    lemma_request_push(property_requests(seen), *property, start);
                    lemma_views_push(members@, member);
                }
                members.push(member);
            },
        }
        i += 1;
    }
    assert(properties@.take(properties.len() as int) =~= properties@);
    (extra_items, members)
}

/// The parameters that a method takes: those through which it hands
/// nothing back, in declared order.
pub open spec fn inputs(parameters: Seq<BpyProperty>) -> Seq<BpyProperty>
    decreases parameters.len(),
{
    if parameters.len() == 0 {
        Seq::empty()
    } else if parameters.last().item().is_output {
        inputs(parameters.drop_last())
    } else {
        inputs(parameters.drop_last()).push(parameters.last())
    }
}

/// The parameters through which a method hands its result back, in declared
/// order.
pub open spec fn outputs(parameters: Seq<BpyProperty>) -> Seq<BpyProperty>
    decreases parameters.len(),
{
    if parameters.len() == 0 {
        Seq::empty()
    } else if parameters.last().item().is_output {
        outputs(parameters.drop_last()).push(parameters.last())
    } else {
        outputs(parameters.drop_last())
    }
}

/// The emitted parameters for a list of descriptors, in order.
pub open spec fn parameters_of(descriptors: Seq<BpyProperty>) -> Seq<ParameterModel> {
    Seq::new(descriptors.len(), |i: int| descriptors[i].parameter())
}

impl BpyMethod {
    /// The declared parameters; none for a method without a signature.
    pub open spec fn parameters(self) -> Seq<BpyProperty> {
        match self {
            BpyMethod::Rna { parameters, .. } => parameters@,
            _ => Seq::empty(),
        }
    }

    /// The declared description; empty for a method without a signature.
    pub open spec fn description(self) -> Seq<char> {
        match self {
            BpyMethod::Rna { description, .. } => description@,
            _ => Seq::empty(),
        }
    }

    /// Whether the method gets a wrapper: it has a signature, and hands back
    /// at most one value.
    pub open spec fn is_emitted(self) -> bool {
        self is Rna && outputs(self.parameters()).len() <= 1
    }

    /// The wrapper of the method when the host knows it as `key`.
    pub open spec fn wrapper(self, key: Seq<char>) -> CallWrapperModel {
        CallWrapperModel {
            name: safe_ident_text(snake_case(key)),
            method: snake_case(key),
            doc: self.description(),
            params: parameters_of(inputs(self.parameters())),
            output: if outputs(self.parameters()).len() == 0 {
                None
            } else {
                Some(
                    OutputModel {
                        ty: outputs(self.parameters())[0].return_type(),
                        decoder: outputs(self.parameters())[0].decoder(),
                    },
                )
            },
        }
    }

    /// The descriptors whose return type the method asks for: its output,
    /// where it is emitted and has one.
    pub open spec fn requests(self) -> Seq<BpyProperty> {
        if self.is_emitted() {
            outputs(self.parameters())
        } else {
            Seq::empty()
        }
    }
}

/// The wrappers that the methods of a class give its interface: that of
/// each emitted method, in order.
pub open spec fn wrappers(methods: Seq<(String, BpyMethod)>) -> Seq<CallWrapperModel>
    decreases methods.len(),
{
    if methods.len() == 0 {
        Seq::empty()
    } else {
        let before = wrappers(methods.drop_last());
        let (key, method) = methods.last();
        if method.is_emitted() {
            before.push(method.wrapper(key@))
        } else {
            before
        }
    }
}

/// The descriptors whose return type the methods of a class ask for, in
/// order.
pub open spec fn method_requests(methods: Seq<(String, BpyMethod)>) -> Seq<BpyProperty>
    decreases methods.len(),
{
    if methods.len() == 0 {
        Seq::empty()
    } else {
        method_requests(methods.drop_last()) + methods.last().1.requests()
    }
}

/// The outputs among the first `upto` parameters are no more than those
/// among the first `beyond`, and one fewer where an output lies between.
proof fn lemma_outputs_grow(parameters: Seq<BpyProperty>, upto: int, beyond: int)
    requires
        0 <= upto <= beyond <= parameters.len(),
    ensures
        outputs(parameters.take(upto)).len() <= outputs(parameters.take(beyond)).len(),
        upto < beyond && parameters[upto].item().is_output ==> outputs(parameters.take(upto)).len()
            < outputs(parameters.take(beyond)).len(),
    decreases beyond - upto,
{
    if upto < beyond {
        lemma_outputs_grow(parameters, upto + 1, beyond);
        assert(parameters.take(upto + 1).drop_last() =~= parameters.take(upto));
    }
}

/// A method that hands back two or more values yields no wrapper: it is
/// left out, which is no error. Adding such a method to the methods of a
/// class changes neither the wrappers that the class gets nor the collection
/// interfaces that it asks for.
pub proof fn lemma_multiple_outputs_dropped(
    methods: Seq<(String, BpyMethod)>,
    key: String,
    method: BpyMethod,
    first: int,
    second: int,
)
    requires
        0 <= first < second < method.parameters().len(),
        method.parameters()[first].item().is_output,
        method.parameters()[second].item().is_output,
    ensures
        outputs(method.parameters()).len() >= 2,
        !method.is_emitted(),
        wrappers(methods.push((key, method))) == wrappers(methods),
        method_requests(methods.push((key, method))) == method_requests(methods),
{
    let parameters = method.parameters();
    lemma_outputs_grow(parameters, first, second);
    lemma_outputs_grow(parameters, second, parameters.len() as int);
    assert(parameters.take(parameters.len() as int) =~= parameters);
    let grown = methods.push((key, method));
    assert(grown.drop_last() =~= methods);
}

/// The parameters of the wrapper: one for each input, in declared order.
fn input_parameters(parameters: &Vec<BpyProperty>) -> (params: Vec<Parameter>)
    ensures
        views(params@) == parameters_of(inputs(parameters@)),
{
    let mut params: Vec<Parameter> = Vec::new();
    let mut i: usize = 0;
    while i < parameters.len()
        invariant
            i <= parameters.len(),
            views(params@) == parameters_of(inputs(parameters@.take(i as int))),
        decreases parameters.len() - i,
    {
        proof {
            let next = parameters@.take(i + 1);
            assert(next.drop_last() =~= parameters@.take(i as int));
        }
        if !parameters[i].is_output() {
            let param = parameters[i].as_method_parameter();
            proof {
                lemma_views_push(params@, param);
            }
            params.push(param);
        }
        i += 1;
    }
    assert(parameters@.take(parameters.len() as int) =~= parameters@);
    params
}

/// The positions of the outputs among the parameters, in declared order.
fn output_positions(parameters: &Vec<BpyProperty>) -> (positions: Vec<usize>)
    ensures
        positions.len() == outputs(parameters@).len(),
        forall|k: int|
            0 <= k < positions.len() ==> (#[trigger] positions[k]) < parameters.len()
                && parameters[positions[k] as int] == outputs(parameters@)[k],
{
    let mut positions: Vec<usize> = Vec::new();
    let mut i: usize = 0;
    while i < parameters.len()
        invariant
            i <= parameters.len(),
            positions.len() == outputs(parameters@.take(i as int)).len(),
            forall|k: int|
                0 <= k < positions.len() ==> (#[trigger] positions[k]) < parameters.len()
                    && parameters[positions[k] as int] == outputs(parameters@.take(i as int))[k],
        decreases parameters.len() - i,
    {
        proof {
            let next = parameters@.take(i + 1);
            assert(next.drop_last() =~= parameters@.take(i as int));
        }
        if parameters[i].is_output() {
            positions.push(i);
        }
        i += 1;
    }
    assert(parameters@.take(parameters.len() as int) =~= parameters@);
    positions
}

/// Emits the wrappers for the methods of a class.
///
/// A method gets a wrapper if the host describes its signature and it hands
/// back at most one value; any other method is left out without an error.
/// The wrapper takes the method's inputs in declared order, each under its
/// snake-case name, nullable unless required, and returns what the output
/// is read as, or nothing where there is none. The first result holds the
/// collection interfaces that these methods are the first in the run to
/// need.
pub fn method_codegen(
    methods: &Vec<(String, BpyMethod)>,
    defined: &mut DefinedCollections,
) -> (emitted: (Vec<CollectionInterface>, Vec<CallWrapper>))
    ensures
        views(emitted.1@) == wrappers(methods@),
        views(emitted.0@) == emitted_collections(method_requests(methods@), old(defined)@),
        final(defined)@ == registered_after(method_requests(methods@), old(defined)@),
{
    let mut members: Vec<CallWrapper> = Vec::new();
    let mut extra_items: Vec<CollectionInterface> = Vec::new();
    let ghost start = defined@;
    let mut i: usize = 0;
    while i < methods.len()
        invariant
            i <= methods.len(),
            views(members@) == wrappers(methods@.take(i as int)),
            views(extra_items@) == emitted_collections(
                method_requests(methods@.take(i as int)),
                start,
            ),
            defined@ == registered_after(method_requests(methods@.take(i as int)), start),
        decreases methods.len() - i,
    {
        let ghost seen = methods@.take(i as int);
        let ghost method_model = methods@[i as int].1;
        proof {
            let next = methods@.take(i + 1);
            assert(next.drop_last() =~= seen);
            lemma_request_concat(method_requests(seen), method_model.requests(), start);
        }
        match &methods[i].1 {
            BpyMethod::Rna { description, parameters, .. } => {
                let func_name = to_snek_case(methods[i].0.as_str());
                let func_name_ident = safe_ident(func_name.as_str());
                let params = input_parameters(parameters);
                let produced = output_positions(parameters);
                if produced.len() <= 1 {
                    let output = if produced.len() == 0 {
                        None
                    } else {
                        let result = &parameters[produced[0]];
                        proof {
                            assert(outputs(parameters@) =~= seq![*result]);
                            lemma_request_push(Seq::empty(), *result, defined@);
                        }
                        let ty = result.as_return_type(&mut extra_items, defined);
                        Some(Output { ty, decoder: result.as_parsed_intermediate_value() })
                    };
                    let member = CallWrapper {
                        name: func_name_ident,
                        method: func_name,
                        doc: description.clone(),
                        params,
                        output,
                    };
                    proof {
                        lemma_views_push(members@, member);
                    }
                    members.push(member);
                }
            },
            BpyMethod::Builtin => {},
            BpyMethod::MethodDescriptor => {},
            BpyMethod::PropertyDeferred => {},
            BpyMethod::Function => {},
            BpyMethod::Method => {},
        }
        i += 1;
    }
    assert(methods@.take(methods.len() as int) =~= methods@);
    (extra_items, members)
}

/// Whether an interface of this name is the baseline that every interface
/// of an object extends, and which therefore hands out the bare handle.
pub open spec fn is_baseline(interface: Seq<char>) -> bool {
    interface == "BpyStruct"@
}

/// Whether an interface of this name is the baseline interface.
pub fn is_baseline_interface(interface: &str) -> (baseline: bool)
    ensures
        baseline == is_baseline(interface@),
{
    str_eq(interface, "BpyStruct")
}

impl BpyStructure {
    /// Whether the class gets an interface. The pseudo-class `type`, with
    /// which the host bootstraps its hierarchy, gets none.
    pub open spec fn is_emitted(self) -> bool {
        self.name@ != "type"@
    }

    /// Whether the class is a root of the hierarchy: its parent is one of
    /// the two names that the host gives to what lies above every class.
    pub open spec fn is_root(self) -> bool {
        self.parent@ == "object"@ || self.parent@ == "type"@
    }

    /// The descriptors whose return type the class asks for, in order: its
    /// properties, then its methods.
    pub open spec fn requests(self) -> Seq<BpyProperty> {
        if self.is_emitted() {
            property_requests(self.properties@) + method_requests(self.methods@)
        } else {
            Seq::empty()
        }
    }

    /// The interface of the class.
    pub open spec fn interface(self) -> InterfaceModel {
        InterfaceModel {
            name: upper_camel_case(self.name@),
            parent: if self.is_root() {
                None
            } else {
                Some(upper_camel_case(self.parent@))
            },
            accessors: accessors(self.properties@),
            wrappers: wrappers(self.methods@),
            unboxes: is_baseline(upper_camel_case(self.name@)),
        }
    }

    /// What the class contributes to the module when `defined` is
    /// registered.
    pub open spec fn bindings(self, defined: Set<Seq<char>>) -> ClassBindingsModel {
        ClassBindingsModel {
            collections: emitted_collections(self.requests(), defined),
            interface: self.interface(),
        }
    }
}

/// Emits the interface of a class, and before it the collection interfaces
/// that the class is the first in the run to need.
///
/// The interface is named after the class in upper camel case. It extends
/// the interface of the parent class, unless the class is a root of the
/// hierarchy. It holds the members of every emitted property and method,
/// and, where it is the baseline interface `BpyStruct`, the operation that
/// hands out the bare handle. The pseudo-class `type` emits nothing.
pub fn structure_to_syntax(structure: BpyStructure, defined: &mut DefinedCollections) -> (emitted:
    Option<ClassBindings>)
    ensures
        emitted is Some == structure.is_emitted(),
        emitted matches Some(bindings) ==> bindings@ == structure.bindings(old(defined)@),
        final(defined)@ == registered_after(structure.requests(), old(defined)@),
{
    if str_eq(structure.name.as_str(), "type") {
        return None;
    }
    let is_top = str_eq(structure.parent.as_str(), "object") || str_eq(
        structure.parent.as_str(),
        "type",
    );
    let structure_name = to_upper_camel_case(structure.name.as_str());
    let ghost start = defined@;
    let (mut extra_items, accessors) = property_codegen(&structure.properties, defined);
    let (mut e, wrappers) = method_codegen(&structure.methods, defined);
    proof {
        lemma_views_concat(extra_items@, e@);
        lemma_request_concat(
            property_requests(structure.properties@),
            method_requests(structure.methods@),
            start,
        );
    }
    extra_items.append(&mut e);
    let unboxes = is_baseline_interface(structure_name.as_str());
    let parent = if !is_top {
        Some(to_upper_camel_case(structure.parent.as_str()))
    } else {
        None
    };
    Some(
        ClassBindings {
            collections: extra_items,
            interface: Interface { name: structure_name, parent, accessors, wrappers, unboxes },
        },
    )
}

/// The line that documents one parameter of an operator.
pub open spec fn parameter_doc(parameter: BpyProperty) -> Seq<char> {
    "- "@ + parameter.item().identifier@ + ": "@ + match parameter.item().description {
        Some(description) => description@,
        None => Seq::empty(),
    }
}

/// The lines that document the parameters of an operator, one for each,
/// separated by line breaks.
pub open spec fn parameter_docs(parameters: Seq<BpyProperty>) -> Seq<char>
    decreases parameters.len(),
{
    if parameters.len() == 0 {
        Seq::empty()
    } else if parameters.len() == 1 {
        parameter_doc(parameters[0])
    } else {
        parameter_docs(parameters.drop_last()) + "\n"@ + parameter_doc(parameters.last())
    }
}

impl BpyOperator {
    /// The documentation of the operator's callable: its description, a
    /// line break, and a line for each input.
    pub open spec fn doc(self) -> Seq<char> {
        self.description@ + "\n"@ + parameter_docs(inputs(self.parameters@))
    }

    /// The callable of the operator when the host knows it as `key`.
    pub open spec fn callable(self, key: Seq<char>) -> CallableModel {
        CallableModel {
            name: safe_ident_text(snake_case(key)),
            operator: snake_case(key),
            doc: self.doc(),
        }
    }
}

/// The callables of the operators of a namespace, in order.
pub open spec fn callables(operators: Seq<(String, BpyOperator)>) -> Seq<CallableModel> {
    Seq::new(operators.len(), |i: int| operators[i].1.callable(operators[i].0@))
}

/// The scope that groups the operators of the namespace that the host knows
/// as `key`.
pub open spec fn namespace(
    key: Seq<char>,
    operators: Seq<(String, BpyOperator)>,
) -> NamespaceModel {
    NamespaceModel {
        name: safe_ident_text(snake_case(key)),
        module: snake_case(key),
        callables: callables(operators),
    }
}

/// The scopes of all namespaces, in order.
pub open spec fn namespaces(ops: Seq<(String, Vec<(String, BpyOperator)>)>) -> Seq<NamespaceModel> {
    Seq::new(ops.len(), |i: int| namespace(ops[i].0@, ops[i].1@))
}

/// Writes the documentation of an operator's callable.
fn operator_doc(descriptor: &BpyOperator) -> (doc: String)
    ensures
        doc@ == descriptor.doc(),
{
    let mut doc = descriptor.description.clone();
    doc.append("\n");
    let ghost head = doc@;
    let mut first = true;
    let mut i: usize = 0;
    while i < descriptor.parameters.len()
        invariant
            i <= descriptor.parameters.len(),
            head == descriptor.description@ + "\n"@,
            first == (inputs(descriptor.parameters@.take(i as int)).len() == 0),
            doc@ == head + parameter_docs(inputs(descriptor.parameters@.take(i as int))),
        decreases descriptor.parameters.len() - i,
    {
        let prop = &descriptor.parameters[i];
        let ghost seen = inputs(descriptor.parameters@.take(i as int));
        proof {
            let next = descriptor.parameters@.take(i + 1);
            assert(next.drop_last() =~= descriptor.parameters@.take(i as int));
        }
        if !prop.is_output() {
            if !first {
                doc.append("\n");
            }
            doc.append("- ");
            doc.append(prop.as_item().identifier.as_str());
            doc.append(": ");
            match &prop.as_item().description {
                Some(description) => doc.append(description.as_str()),
                None => {},
            }
            first = false;
            proof {
                let grown = seen.push(*prop);
                assert(grown.drop_last() =~= seen);
            }
        }
        i += 1;
    }
    assert(descriptor.parameters@.take(descriptor.parameters.len() as int)
        =~= descriptor.parameters@);
    doc
}

/// Emits the callables of the host's operators, grouped by namespace.
///
/// Each namespace becomes a scope and each operator a callable in it, both
/// named in snake case. A callable is documented by the operator's
/// description, followed by a line for each input that names it and gives
/// its description.
pub fn ops_codegen(ops: Vec<(String, Vec<(String, BpyOperator)>)>) -> (scopes: Vec<Namespace>)
    ensures
        views(scopes@) == namespaces(ops@),
{
    let mut scopes: Vec<Namespace> = Vec::new();
    let mut m: usize = 0;
    while m < ops.len()
        invariant
            m <= ops.len(),
            scopes.len() == m,
            forall|k: int|
                0 <= k < m ==> (#[trigger] scopes[k])@ == namespace(ops[k].0@, ops[k].1@),
        decreases ops.len() - m,
    {
        let mod_name_str = to_snek_case(ops[m].0.as_str());
        let mod_name_ident = safe_ident(mod_name_str.as_str());
        let items = &ops[m].1;
        let mut members: Vec<Callable> = Vec::new();
        let mut i: usize = 0;
        while i < items.len()
            invariant
                i <= items.len(),
                members.len() == i,
                forall|k: int|
                    0 <= k < i ==> (#[trigger] members[k])@ == items[k].1.callable(items[k].0@),
            decreases items.len() - i,
        {
            let op_name_str = to_snek_case(items[i].0.as_str());
            let op_name_ident = safe_ident(op_name_str.as_str());
            let description = operator_doc(&items[i].1);
            members.push(Callable { name: op_name_ident, operator: op_name_str, doc: description });
            i += 1;
        }
        assert(views(members@) =~= callables(items@));
        scopes.push(Namespace { name: mod_name_ident, module: mod_name_str, callables: members });
        m += 1;
    }
    scopes
}

} // verus!
