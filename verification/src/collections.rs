//! Deduplication of collection interfaces over a run.
//!
//! A run asks for the return types of a sequence of descriptors, one after
//! the other. This module says which collection interfaces such a sequence
//! of requests emits, and shows that each key gets exactly one.

use crate::model::{CollectionModel, ShapeModel};
use crate::schema::BpyProperty;
use crate::types::collection_interface_name;
use vstd::prelude::*;

verus! {

/// The keys that are registered after the requests, made in order from a
/// state in which `defined` was registered.
pub open spec fn registered_after(requests: Seq<BpyProperty>, defined: Set<Seq<char>>) -> Set<
    Seq<char>,
>
    decreases requests.len(),
{
    if requests.len() == 0 {
        defined
    } else {
        requests.last().defined_after(registered_after(requests.drop_last(), defined))
    }
}

/// The collection interfaces that the requests emit, in order, when made
/// from a state in which `defined` was registered.
pub open spec fn emitted_collections(
    requests: Seq<BpyProperty>,
    defined: Set<Seq<char>>,
) -> Seq<CollectionModel>
    decreases requests.len(),
{
    if requests.len() == 0 {
        Seq::empty()
    } else {
        emitted_collections(requests.drop_last(), defined) + requests.last().fresh_collections(
            registered_after(requests.drop_last(), defined),
        )
    }
}

/// One more request emits what the descriptor emits in the state that the
/// earlier requests have left.
pub proof fn lemma_request_push(
    requests: Seq<BpyProperty>,
    request: BpyProperty,
    defined: Set<Seq<char>>,
)
    ensures
        registered_after(requests.push(request), defined) == request.defined_after(
            registered_after(requests, defined),
        ),
        emitted_collections(requests.push(request), defined) == emitted_collections(
            requests,
            defined,
        ) + request.fresh_collections(registered_after(requests, defined)),
{
    assert(requests.push(request).drop_last() =~= requests);
}

/// Requests made in two runs, the second from the state that the first has
/// left, emit what the two sequences emit when made as one.
pub proof fn lemma_request_concat(
    first: Seq<BpyProperty>,
    second: Seq<BpyProperty>,
    defined: Set<Seq<char>>,
)
    ensures
        registered_after(first + second, defined) == registered_after(
            second,
            registered_after(first, defined),
        ),
        emitted_collections(first + second, defined) == emitted_collections(first, defined)
            + emitted_collections(second, registered_after(first, defined)),
    decreases second.len(),
{
    if second.len() == 0 {
        assert(first + second =~= first);
        assert(emitted_collections(first, defined) + Seq::<CollectionModel>::empty()
            =~= emitted_collections(first, defined));
    } else {
        let init = second.drop_last();
        lemma_request_concat(first, init, defined);
        assert((first + second).drop_last() =~= first + init);
        assert((first + second).last() == second.last());
        let middle = registered_after(first, defined);
        assert(emitted_collections(first + second, defined) =~= emitted_collections(
            first,
            defined,
        ) + emitted_collections(second, middle));
    }
}

/// Whether one of the requests is a collection with the given key.
pub open spec fn asks_for(requests: Seq<BpyProperty>, key: Seq<char>) -> bool {
    exists|k: int| 0 <= k < requests.len() && is_request_for(#[trigger] requests[k], key)
}

/// Whether the descriptor is a collection with the given key.
pub open spec fn is_request_for(request: BpyProperty, key: Seq<char>) -> bool {
    request is Collection && request.canonical_key() == key
}

/// A key is registered after the requests exactly when it was registered
/// before, or one of the requests is a collection with that key.
pub proof fn lemma_registered_key(
    requests: Seq<BpyProperty>,
    defined: Set<Seq<char>>,
    key: Seq<char>,
)
    ensures
        registered_after(requests, defined).contains(key) <==> (defined.contains(key) || asks_for(
            requests,
            key,
        )),
    decreases requests.len(),
{
    if requests.len() > 0 {
        let init = requests.drop_last();
        let last = requests.last();
        lemma_registered_key(init, defined, key);
        if asks_for(init, key) {
            let k = choose|k: int| 0 <= k < init.len() && is_request_for(#[trigger] init[k], key);
            assert(is_request_for(requests[k], key));
        }
        if is_request_for(last, key) {
            assert(is_request_for(requests[requests.len() - 1], key));
        }
        if asks_for(requests, key) {
            let k = choose|k: int|
                0 <= k < requests.len() && is_request_for(#[trigger] requests[k], key);
            if k < init.len() {
                assert(is_request_for(init[k], key));
            }
        }
    }
}

/// Which keys end up registered does not depend on the order of the
/// requests: two sequences that ask for the same keys leave the same set.
pub proof fn lemma_order_independent(
    first: Seq<BpyProperty>,
    second: Seq<BpyProperty>,
    defined: Set<Seq<char>>,
)
    requires
        forall|key: Seq<char>| asks_for(first, key) <==> asks_for(second, key),
    ensures
        registered_after(first, defined) == registered_after(second, defined),
{
    assert forall|key: Seq<char>|
        registered_after(first, defined).contains(key) <==> registered_after(
            second,
            defined,
        ).contains(key) by {
        lemma_registered_key(first, defined, key);
        lemma_registered_key(second, defined, key);
    }
    assert(registered_after(first, defined) =~= registered_after(second, defined));
}

/// Each emitted interface is the one that some request asks for, and its
/// key was not registered before. Returns the index of such a request.
proof fn lemma_emitted_origin(requests: Seq<BpyProperty>, defined: Set<Seq<char>>, i: int) -> (k:
    int)
    requires
        0 <= i < emitted_collections(requests, defined).len(),
    ensures
        0 <= k < requests.len(),
        requests[k] is Collection,
        requests[k].collection_interface() == emitted_collections(requests, defined)[i],
        !defined.contains(emitted_collections(requests, defined)[i].key),
        registered_after(requests, defined).contains(emitted_collections(requests, defined)[i].key),
    decreases requests.len(),
{
    let init = requests.drop_last();
    let last = requests.last();
    let before = emitted_collections(init, defined);
    if i < before.len() {
        let k = lemma_emitted_origin(init, defined, i);
        assert(requests[k] == init[k]);
        k
    } else {
        lemma_registered_key(init, defined, last.canonical_key());
        requests.len() - 1
    }
}

/// No two emitted interfaces have the same key.
proof fn lemma_emitted_distinct(
    requests: Seq<BpyProperty>,
    defined: Set<Seq<char>>,
    i: int,
    j: int,
)
    requires
        0 <= i < j < emitted_collections(requests, defined).len(),
    ensures
        emitted_collections(requests, defined)[i].key != emitted_collections(
            requests,
            defined,
        )[j].key,
    decreases requests.len(),
{
    let init = requests.drop_last();
    let before = emitted_collections(init, defined);
    if j < before.len() {
        lemma_emitted_distinct(init, defined, i, j);
    } else {
        lemma_emitted_origin(init, defined, i);
    }
}

/// A collection among the requests whose key was not registered before
/// finds an emitted interface with its key. Returns the index of it.
proof fn lemma_emitted_for(requests: Seq<BpyProperty>, defined: Set<Seq<char>>, k: int) -> (i:
    int)
    requires
        0 <= k < requests.len(),
        requests[k] is Collection,
        !defined.contains(requests[k].canonical_key()),
    ensures
        0 <= i < emitted_collections(requests, defined).len(),
        emitted_collections(requests, defined)[i].key == requests[k].canonical_key(),
        emitted_collections(requests, defined)[i].name == collection_interface_name(
            requests[k].canonical_key(),
        ),
    decreases requests.len(),
{
    let init = requests.drop_last();
    let before = emitted_collections(init, defined);
    let seen = registered_after(init, defined);
    let key = requests[k].canonical_key();
    if k < init.len() {
        assert(init[k] == requests[k]);
        lemma_emitted_for(init, defined, k)
    } else if seen.contains(key) {
        lemma_registered_key(init, defined, key);
        let earlier = choose|e: int| 0 <= e < init.len() && is_request_for(#[trigger] init[e], key);
        lemma_emitted_for(init, defined, earlier)
    } else {
        before.len() as int
    }
}

/// Every canonical key gets exactly one collection interface, however many
/// requests share it, and requests with different keys never share one.
///
/// Of the interfaces that a sequence of requests emits:
/// no two have the same key; none has a key that was registered before;
/// each is the interface that one of the requests asks for; and each
/// collection among the requests, unless its key was registered before, finds
/// among them an interface with its own key, which is the interface that its
/// return type names.
pub proof fn lemma_one_interface_per_key(requests: Seq<BpyProperty>, defined: Set<Seq<char>>)
    ensures
        ({
            let out = emitted_collections(requests, defined);
            &&& forall|i: int, j: int|
                0 <= i < j < out.len() ==> (#[trigger] out[i]).key != (#[trigger] out[j]).key
            &&& forall|i: int| 0 <= i < out.len() ==> !defined.contains((#[trigger] out[i]).key)
            &&& forall|i: int|
                0 <= i < out.len() ==> exists|k: int|
                    0 <= k < requests.len() && requests[k] is Collection && #[trigger] requests[k]
                        .collection_interface() == #[trigger] out[i]
            &&& forall|k: int|
                0 <= k < requests.len() && #[trigger] requests[k] is Collection
                    && !defined.contains(requests[k].canonical_key()) ==> exists|i: int|
                    0 <= i < out.len() && (#[trigger] out[i]).key == requests[k].canonical_key()
                        && requests[k].return_type().shape == ShapeModel::Object(out[i].name)
        }),
{
    let out = emitted_collections(requests, defined);
    assert forall|i: int, j: int| 0 <= i < j < out.len() implies (#[trigger] out[i]).key != (
    #[trigger] out[j]).key by {
        lemma_emitted_distinct(requests, defined, i, j);
    }
    assert forall|i: int| 0 <= i < out.len() implies !defined.contains((#[trigger] out[i]).key)
        && exists|k: int|
        0 <= k < requests.len() && requests[k] is Collection && #[trigger] requests[k]
            .collection_interface() == out[i] by {
        let k = lemma_emitted_origin(requests, defined, i);
    }
    assert forall|k: int|
        0 <= k < requests.len() && #[trigger] requests[k] is Collection && !defined.contains(
            requests[k].canonical_key(),
        ) implies exists|i: int|
        0 <= i < out.len() && (#[trigger] out[i]).key == requests[k].canonical_key()
            && requests[k].return_type().shape == ShapeModel::Object(out[i].name) by {
        lemma_emitted_for(requests, defined, k);
    }
}

} // verus!
