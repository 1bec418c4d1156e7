//! A whole run: from a snapshot to the module that binds it.

use crate::codegen::{namespaces, ops_codegen, structure_to_syntax};
use crate::collections::{
    emitted_collections, lemma_one_interface_per_key, lemma_request_concat, registered_after,
};
use crate::model::{
    lemma_views_push, views, ClassBindings, ClassBindingsModel, CollectionModel, Namespace,
    NamespaceModel, ShapeModel,
};
use crate::naming::str_eq;
use crate::registry::DefinedCollections;
use crate::schema::{BpyProperty, BpyStructure, Schema};
use crate::types::{collection_interface_name, name_collection_interface};
use vstd::prelude::*;
use vstd::string::*;

verus! {

/// The accessor of one of the host's well-known collections of persistent
/// data: a function without arguments that hands out the collection, seen
/// through its interface.
#[derive(Clone, Debug, PartialEq, Eq)]
pub struct Root {
    /// The name of the accessor, and of the setting that holds the
    /// collection's reference.
    pub accessor: String,
    /// The interface through which the collection is handed out.
    pub interface: String,
}

/// The view of a [`Root`].
pub struct RootModel {
    pub accessor: Seq<char>,
    pub interface: Seq<char>,
}

impl View for Root {
    type V = RootModel;

    open spec fn view(&self) -> RootModel {
        RootModel { accessor: self.accessor@, interface: self.interface@ }
    }
}

/// The host's collections of persistent data: the name of each, and the
/// class that specialises the collection.
pub open spec fn data_targets() -> Seq<(Seq<char>, Seq<char>)> {
    seq![
        ("actions"@, "BlendDataActions"@),
        ("armatures"@, "BlendDataArmatures"@),
        ("bl_rna"@, "Struct"@),
        ("brushes"@, "BlendDataBrushes"@),
        ("cache_files"@, "BlendDataCacheFiles"@),
        ("cameras"@, "BlendDataCameras"@),
        ("collections"@, "BlendDataCollections"@),
        ("curves"@, "BlendDataCurves"@),
        ("fonts"@, "BlendDataFonts"@),
        ("grease_pencils"@, "BlendDataGreasePencils"@),
        ("hair_curves"@, "BlendDataHairCurves"@),
        ("images"@, "BlendDataImages"@),
        ("lattices"@, "BlendDataLattices"@),
        ("libraries"@, "BlendDataLibraries"@),
        ("lightprobes"@, "BlendDataProbes"@),
        ("lights"@, "BlendDataLights"@),
        ("linestyles"@, "BlendDataLineStyles"@),
        ("masks"@, "BlendDataMasks"@),
        ("materials"@, "BlendDataMaterials"@),
        ("meshes"@, "BlendDataMeshes"@),
        ("metaballs"@, "BlendDataMetaBalls"@),
        ("movieclips"@, "BlendDataMovieClips"@),
        ("node_groups"@, "BlendDataNodeTrees"@),
        ("objects"@, "BlendDataObjects"@),
        ("paint_curves"@, "BlendDataPaintCurves"@),
        ("palettes"@, "BlendDataPalettes"@),
        ("particles"@, "BlendDataParticles"@),
        ("pointclouds"@, "BlendDataPointClouds"@),
        ("rna_type"@, "Struct"@),
        ("scenes"@, "BlendDataScenes"@),
        ("screens"@, "BlendDataScreens"@),
        ("sounds"@, "BlendDataSounds"@),
        ("speakers"@, "BlendDataSpeakers"@),
        ("texts"@, "BlendDataTexts"@),
        ("textures"@, "BlendDataTextures"@),
        ("volumes"@, "BlendDataVolumes"@),
        ("window_managers"@, "BlendDataWindowManagers"@),
        ("workspaces"@, "BlendDataWorkSpaces"@),
        ("worlds"@, "BlendDataWorlds"@),
    ]
}

/// The accessors of the host's collections of persistent data, one for each
/// entry of the table, in order.
pub open spec fn roots() -> Seq<RootModel> {
    Seq::new(
        data_targets().len(),
        |i: int|
            RootModel {
                accessor: data_targets()[i].0,
                interface: collection_interface_name(data_targets()[i].1),
            },
    )
}

/// The table of the host's collections of persistent data.
fn data_target_table() -> (table: Vec<(&'static str, &'static str)>)
    ensures
        table.len() == data_targets().len(),
        forall|i: int|
            0 <= i < table.len() ==> (#[trigger] table[i]).0@ == data_targets()[i].0 && table[i].1@
                == data_targets()[i].1,
{
    vec![
        ("actions", "BlendDataActions"),
        ("armatures", "BlendDataArmatures"),
        ("bl_rna", "Struct"),
        ("brushes", "BlendDataBrushes"),
        ("cache_files", "BlendDataCacheFiles"),
        ("cameras", "BlendDataCameras"),
        ("collections", "BlendDataCollections"),
        ("curves", "BlendDataCurves"),
        ("fonts", "BlendDataFonts"),
        ("grease_pencils", "BlendDataGreasePencils"),
        ("hair_curves", "BlendDataHairCurves"),
        ("images", "BlendDataImages"),
        ("lattices", "BlendDataLattices"),
        ("libraries", "BlendDataLibraries"),
        ("lightprobes", "BlendDataProbes"),
        ("lights", "BlendDataLights"),
        ("linestyles", "BlendDataLineStyles"),
        ("masks", "BlendDataMasks"),
        ("materials", "BlendDataMaterials"),
        ("meshes", "BlendDataMeshes"),
        ("metaballs", "BlendDataMetaBalls"),
        ("movieclips", "BlendDataMovieClips"),
        ("node_groups", "BlendDataNodeTrees"),
        ("objects", "BlendDataObjects"),
        ("paint_curves", "BlendDataPaintCurves"),
        ("palettes", "BlendDataPalettes"),
        ("particles", "BlendDataParticles"),
        ("pointclouds", "BlendDataPointClouds"),
        ("rna_type", "Struct"),
        ("scenes", "BlendDataScenes"),
        ("screens", "BlendDataScreens"),
        ("sounds", "BlendDataSounds"),
        ("speakers", "BlendDataSpeakers"),
        ("texts", "BlendDataTexts"),
        ("textures", "BlendDataTextures"),
        ("volumes", "BlendDataVolumes"),
        ("window_managers", "BlendDataWindowManagers"),
        ("workspaces", "BlendDataWorkSpaces"),
        ("worlds", "BlendDataWorlds"),
    ]
}

/// Emits the accessors of the host's collections of persistent data.
pub fn data_codegen() -> (accessors: Vec<Root>)
    ensures
        views(accessors@) == roots(),
{
    let table = data_target_table();
    let mut accessors: Vec<Root> = Vec::new();
    let mut i: usize = 0;
    while i < table.len()
        invariant
            i <= table.len(),
            table.len() == data_targets().len(),
            forall|k: int|
                0 <= k < table.len() ==> (#[trigger] table[k]).0@ == data_targets()[k].0
                    && table[k].1@ == data_targets()[k].1,
            accessors.len() == i,
            forall|k: int| 0 <= k < i ==> (#[trigger] accessors[k])@ == roots()[k],
        decreases table.len() - i,
    {
        let (func, target) = table[i];
        accessors.push(
            Root { accessor: String::from_str(func), interface: name_collection_interface(target) },
        );
        i += 1;
    }
    accessors
}

/// Everything that a run emits.
#[derive(Clone, Debug, PartialEq, Eq)]
pub struct Module {
    /// The interfaces of the classes, in the order in which they were
    /// emitted, each behind the collection interfaces that it was the first
    /// to need.
    pub classes: Vec<ClassBindings>,
    /// The accessors of the host's collections of persistent data.
    pub roots: Vec<Root>,
    /// The callables of the host's operators, by namespace.
    pub namespaces: Vec<Namespace>,
}

/// The view of a [`Module`].
pub struct ModuleModel {
    pub classes: Seq<ClassBindingsModel>,
    pub roots: Seq<RootModel>,
    pub namespaces: Seq<NamespaceModel>,
}

impl View for Module {
    type V = ModuleModel;

    open spec fn view(&self) -> ModuleModel {
        ModuleModel {
            classes: views(self.classes@),
            roots: views(self.roots@),
            namespaces: views(self.namespaces@),
        }
    }
}

/// The classes among `ordered` that get an interface, in order.
pub open spec fn emitted_classes(ordered: Seq<BpyStructure>) -> Seq<BpyStructure>
    decreases ordered.len(),
{
    if ordered.len() == 0 {
        Seq::empty()
    } else if ordered.last().is_emitted() {
        emitted_classes(ordered.drop_last()).push(ordered.last())
    } else {
        emitted_classes(ordered.drop_last())
    }
}

/// The descriptors whose return type a run over `ordered` asks for, in
/// order.
pub open spec fn run_requests(ordered: Seq<BpyStructure>) -> Seq<BpyProperty>
    decreases ordered.len(),
{
    if ordered.len() == 0 {
        Seq::empty()
    } else {
        run_requests(ordered.drop_last()) + ordered.last().requests()
    }
}

/// What a run over `ordered` emits for the classes: for each emitted class,
/// in order, what it contributes in the state that the classes before it
/// have left.
pub open spec fn run_bindings(ordered: Seq<BpyStructure>) -> Seq<ClassBindingsModel>
    decreases ordered.len(),
{
    if ordered.len() == 0 {
        Seq::empty()
    } else {
        let before = run_bindings(ordered.drop_last());
        let seen = registered_after(run_requests(ordered.drop_last()), Set::empty());
        if ordered.last().is_emitted() {
            before.push(ordered.last().bindings(seen))
        } else {
            before
        }
    }
}

impl Schema {
    /// The order in which the classes are walked: the snapshot lists a class
    /// before the classes it derives from, the run walks it from the end.
    pub open spec fn emission_order(self) -> Seq<BpyStructure> {
        self.classes@.reverse()
    }

    /// The module that binds the snapshot.
    pub open spec fn module(self) -> ModuleModel {
        ModuleModel {
            classes: run_bindings(self.emission_order()),
            roots: roots(),
            namespaces: namespaces(self.operators@),
        }
    }
}

/// Binds a snapshot: emits the interface of every class, walking the classes
/// from the last of the snapshot to the first, then the accessors of the
/// host's collections of persistent data and the callables of its
/// operators.
///
/// One set of registered collection keys serves the whole run, so that a
/// collection interface is emitted where the first class needs it and never
/// again.
pub fn generate(schema: Schema) -> (module: Module)
    ensures
        module@ == schema.module(),
{
    let Schema { classes, operators } = schema;
    let mut classes = classes;
    let ghost ordered = classes@.reverse();
    let ghost total = classes@.len();
    let mut defined = DefinedCollections::new();
    let mut results: Vec<ClassBindings> = Vec::new();
    while classes.len() > 0
        invariant
            classes.len() <= total,
            ordered.len() == total,
            forall|k: int| 0 <= k < classes.len() ==> classes[k] == ordered[total - 1 - k],
            views(results@) == run_bindings(ordered.take(total - classes.len())),
            defined@ == registered_after(
                run_requests(ordered.take(total - classes.len())),
                Set::empty(),
            ),
        decreases classes.len(),
    {
        let ghost done = ordered.take(total - classes.len());
        let ghost remaining = classes.len();
        let structure = classes.pop().unwrap();
        proof {
            let next = ordered.take(total - remaining + 1);
            assert(next.drop_last() =~= done);
            lemma_request_concat(run_requests(done), structure.requests(), Set::empty());
        }
        match structure_to_syntax(structure, &mut defined) {
            Some(bindings) => {
                proof {
                    lemma_views_push(results@, bindings);
                }
                results.push(bindings);
            },
            None => {},
        }
    }
    assert(ordered.take(total as int) =~= ordered);
    let roots = data_codegen();
    let namespaces = ops_codegen(operators);
    Module { classes: results, roots, namespaces }
}

/// All collection interfaces of a list of class bindings, in order.
pub open spec fn all_collections(bindings: Seq<ClassBindingsModel>) -> Seq<CollectionModel>
    decreases bindings.len(),
{
    if bindings.len() == 0 {
        Seq::empty()
    } else {
        all_collections(bindings.drop_last()) + bindings.last().collections
    }
}

/// The collection interfaces that a run emits are those that its requests
/// emit when made one after the other from the empty state.
pub proof fn lemma_run_collections(ordered: Seq<BpyStructure>)
    ensures
        all_collections(run_bindings(ordered)) == emitted_collections(
            run_requests(ordered),
            Set::empty(),
        ),
    decreases ordered.len(),
{
    if ordered.len() > 0 {
        let init = ordered.drop_last();
        let last = ordered.last();
        lemma_run_collections(init);
        lemma_request_concat(run_requests(init), last.requests(), Set::empty());
        let seen = registered_after(run_requests(init), Set::empty());
        if last.is_emitted() {
            let grown = run_bindings(init).push(last.bindings(seen));
            assert(grown.drop_last() =~= run_bindings(init));
        } else {
            assert(emitted_collections(last.requests(), seen) =~= Seq::empty());
            assert(emitted_collections(run_requests(init), Set::empty()) + Seq::<
                CollectionModel,
            >::empty() =~= emitted_collections(run_requests(init), Set::empty()));
        }
    }
}

/// In the module that binds a snapshot, every canonical key has exactly one
/// collection interface, however many classes hold a collection with that
/// key, and collections with different keys never share one.
///
/// Of all collection interfaces of the module: no two have the same key;
/// each is the interface that some collection read in the run asks for; and
/// every collection read in the run finds among them an interface with its
/// own key, which is the interface that its return type names.
pub proof fn lemma_module_collections(schema: Schema)
    ensures
        ({
            let out = all_collections(schema.module().classes);
            let requests = run_requests(schema.emission_order());
            &&& forall|i: int, j: int|
                0 <= i < j < out.len() ==> (#[trigger] out[i]).key != (#[trigger] out[j]).key
            &&& forall|i: int|
                0 <= i < out.len() ==> exists|k: int|
                    0 <= k < requests.len() && requests[k] is Collection && #[trigger] requests[k]
                        .collection_interface() == #[trigger] out[i]
            &&& forall|k: int|
                0 <= k < requests.len() && #[trigger] requests[k] is Collection ==> exists|i: int|
                    0 <= i < out.len() && (#[trigger] out[i]).key == requests[k].canonical_key()
                        && requests[k].return_type().shape == ShapeModel::Object(out[i].name)
        }),
{
    let requests = run_requests(schema.emission_order());
    let nothing = Set::<Seq<char>>::empty();
    let out = all_collections(schema.module().classes);
    lemma_run_collections(schema.emission_order());
    lemma_one_interface_per_key(requests, nothing);
    assert(out == emitted_collections(requests, nothing));
    assert forall|i: int, j: int| 0 <= i < j < out.len() implies (#[trigger] out[i]).key != (
    #[trigger] out[j]).key by {}
    assert forall|i: int| 0 <= i < out.len() implies exists|k: int|
        0 <= k < requests.len() && requests[k] is Collection && #[trigger] requests[k]
            .collection_interface() == #[trigger] out[i] by {}
    assert forall|k: int|
        0 <= k < requests.len() && #[trigger] requests[k] is Collection implies exists|i: int|
        0 <= i < out.len() && (#[trigger] out[i]).key == requests[k].canonical_key()
            && requests[k].return_type().shape == ShapeModel::Object(out[i].name) by {
        assert(!nothing.contains(requests[k].canonical_key()));
    }
}

/// Whether every class comes after the class it derives from: each emitted
/// class that is no root finds the class named as its parent among the
/// emitted classes before it.
pub open spec fn parents_first(ordered: Seq<BpyStructure>) -> bool {
    forall|i: int|
        0 <= i < emitted_classes(ordered).len() && !(#[trigger] emitted_classes(
            ordered,
        )[i]).is_root() ==> parent_among(emitted_classes(ordered), i, i)
}

/// Whether the class named as parent of the class at `child` stands among
/// the first `upto` of the classes.
pub open spec fn parent_among(classes: Seq<BpyStructure>, child: int, upto: int) -> bool {
    exists|j: int| 0 <= j < upto && (#[trigger] classes[j]).name@ == classes[child].parent@
}

impl Schema {
    /// Whether every class of the snapshot comes, in the order of the run,
    /// after the class it derives from. Only then does every interface of
    /// the module find the interface that it extends before it, and every
    /// chain of ancestors end in a root.
    pub fn is_ordered(&self) -> (ordered: bool)
        ensures
            ordered == parents_first(self.emission_order()),
    {
        let ghost order = self.emission_order();
        let total = self.classes.len();
        let mut emitted: Vec<&BpyStructure> = Vec::new();
        let mut remaining: usize = total;
        while remaining > 0
            invariant
                remaining <= total,
                total == self.classes.len(),
                order == self.classes@.reverse(),
                emitted.len() == emitted_classes(order.take(total - remaining)).len(),
                forall|k: int|
                    0 <= k < emitted.len() ==> *(#[trigger] emitted[k]) == emitted_classes(
                        order.take(total - remaining),
                    )[k],
            decreases remaining,
        {
            proof {
                let next = order.take(total - remaining + 1);
                assert(next.drop_last() =~= order.take(total - remaining));
            }
            remaining -= 1;
            let structure = &self.classes[remaining];
            if !str_eq(structure.name.as_str(), "type") {
                emitted.push(structure);
            }
        }
        assert(order.take(total as int) =~= order);
        let ghost classes = emitted_classes(order);
        let mut i: usize = 0;
        while i < emitted.len()
            invariant
                i <= emitted.len(),
                order == self.emission_order(),
                classes == emitted_classes(order),
                emitted.len() == classes.len(),
                forall|k: int| 0 <= k < emitted.len() ==> *(#[trigger] emitted[k]) == classes[k],
                forall|k: int|
                    0 <= k < i && !(#[trigger] classes[k]).is_root() ==> parent_among(
                        classes,
                        k,
                        k,
                    ),
            decreases emitted.len() - i,
        {
            let child = emitted[i];
            let is_top = str_eq(child.parent.as_str(), "object") || str_eq(
                child.parent.as_str(),
                "type",
            );
            if !is_top {
                let mut found = false;
                let mut j: usize = 0;
                while j < i && !found
                    invariant
                        j <= i < emitted.len(),
                        emitted.len() == classes.len(),
                        *child == classes[i as int],
                        forall|k: int|
                            0 <= k < emitted.len() ==> *(#[trigger] emitted[k]) == classes[k],
                        found ==> parent_among(classes, i as int, i as int),
                        !found ==> !parent_among(classes, i as int, j as int),
                    decreases i - j,
                {
                    if str_eq(emitted[j].name.as_str(), child.parent.as_str()) {
                        found = true;
                    }
                    j += 1;
                }
                if !found {
                    return false;
                }
            }
            i += 1;
        }
        true
    }
}

/// A run emits one interface for each emitted class, in order: that of the
/// class, behind the collection interfaces that the class is the first to
/// need.
pub proof fn lemma_bindings_follow_classes(ordered: Seq<BpyStructure>)
    ensures
        run_bindings(ordered).len() == emitted_classes(ordered).len(),
        forall|k: int|
            0 <= k < run_bindings(ordered).len() ==> (#[trigger] run_bindings(
                ordered,
            )[k]).interface == emitted_classes(ordered)[k].interface(),
    decreases ordered.len(),
{
    if ordered.len() > 0 {
        lemma_bindings_follow_classes(ordered.drop_last());
    }
}

/// The interfaces of a class and of its ancestors, from the class up to a
/// root of the hierarchy, where every class comes after the class it derives
/// from.
///
/// Returns the positions of these interfaces in the module, starting with
/// that of the class itself. Each interface but the last extends the next
/// one, which stands for the class named as parent in the snapshot and was
/// emitted earlier; the last one extends no other interface, and stands for
/// a class that is a root.
pub proof fn lemma_ancestors_reach_root(ordered: Seq<BpyStructure>, class: int) -> (chain: Seq<int>)
    requires
        parents_first(ordered),
        0 <= class < run_bindings(ordered).len(),
    ensures
        chain.len() >= 1,
        chain[0] == class,
        forall|i: int| 0 <= i < chain.len() ==> 0 <= #[trigger] chain[i] <= class,
        forall|i: int|
            0 <= i < chain.len() - 1 ==> {
                let child = #[trigger] chain[i];
                let parent = chain[i + 1];
                &&& parent < child
                &&& run_bindings(ordered)[child].interface.parent == Some(
                    run_bindings(ordered)[parent].interface.name,
                )
                &&& emitted_classes(ordered)[child].parent@ == emitted_classes(
                    ordered,
                )[parent].name@
            },
        run_bindings(ordered)[chain.last()].interface.parent is None,
        emitted_classes(ordered)[chain.last()].is_root(),
    decreases class,
{
    lemma_bindings_follow_classes(ordered);
    let classes = emitted_classes(ordered);
    if classes[class].is_root() {
        seq![class]
    } else {
        let parent = choose|j: int|
            0 <= j < class && (#[trigger] classes[j]).name@ == classes[class].parent@;
        let above = lemma_ancestors_reach_root(ordered, parent);
        let chain = seq![class] + above;
        assert forall|i: int| 0 <= i < chain.len() - 1 implies {
            let child = #[trigger] chain[i];
            let parent = chain[i + 1];
            &&& parent < child
            &&& run_bindings(ordered)[child].interface.parent == Some(
                run_bindings(ordered)[parent].interface.name,
            )
            &&& emitted_classes(ordered)[child].parent@ == emitted_classes(ordered)[parent].name@
        } by {
            if i > 0 {
                assert(chain[i] == above[i - 1]);
                assert(chain[i + 1] == above[i]);
            }
        }
        chain
    }
}

/// In the module that binds a snapshot whose classes each come after the
/// class they derive from, no interface is emitted before the one it
/// extends: an interface either stands for a root and extends no other, or
/// extends the interface of the class named as its parent, which stands
/// earlier in the module.
pub proof fn lemma_parent_emitted_first(schema: Schema, class: int)
    requires
        parents_first(schema.emission_order()),
        0 <= class < schema.module().classes.len(),
    ensures
        ({
            let emitted = schema.module().classes;
            let source = emitted_classes(schema.emission_order())[class];
            &&& emitted[class].interface == source.interface()
            &&& source.is_root() <==> emitted[class].interface.parent is None
            &&& !source.is_root() ==> exists|earlier: int|
                0 <= earlier < class && (#[trigger] emitted[earlier]).interface.name
                    == emitted[class].interface.parent->0
        }),
{
    let ordered = schema.emission_order();
    lemma_bindings_follow_classes(ordered);
    let classes = emitted_classes(ordered);
    let emitted = schema.module().classes;
    if !classes[class].is_root() {
        let parent = choose|j: int|
            0 <= j < class && (#[trigger] classes[j]).name@ == classes[class].parent@;
        assert(emitted[parent].interface.name == emitted[class].interface.parent->0);
    }
}

} // verus!
