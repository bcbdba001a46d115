//! The poll step against bevy's asset server: each waiting handle is asked
//! whether it and all its dependencies have loaded, and a ready one has its
//! finalizer run on the world.

use crate::queue::{
    entries_where, handles_of, lemma_entries_where_extend, lemma_entries_where_same_flags,
    ResourceHandles,
};
use bevy::asset::{AssetServer, UntypedHandle};
use bevy::ecs::world::World;
use vstd::prelude::*;

verus! {

#[verifier::external_type_specification]
#[verifier::external_body]
pub struct ExWorld(World);

#[verifier::external_type_specification]
#[verifier::external_body]
pub struct ExUntypedHandle(UntypedHandle);

#[verifier::external_type_specification]
#[verifier::external_body]
pub struct ExAssetServer(AssetServer);

/// Relies on `AssetServer::is_loaded_with_dependencies`: whether the asset,
/// its dependencies and theirs have all loaded. The answer follows the
/// loader's progress, so nothing is stated of it; the lookup takes a read
/// lock that does not poison and does not panic.
#[verifier::external_body]
fn is_loaded_with_dependencies(server: &AssetServer, handle: &UntypedHandle) -> bool {
    server.is_loaded_with_dependencies(handle)
}

/// Every finalizer waiting in `handles` may be run on any world and handle.
pub open spec fn finalizers_callable<F: Fn(&mut World, &UntypedHandle)>(
    handles: ResourceHandles<UntypedHandle, F>,
) -> bool {
    forall|i: int, w: &mut World, h: &UntypedHandle|
        0 <= i < handles@.waiting.len() ==> #[trigger] handles@.waiting[i].1.requires((w, h))
}

/// One poll step: each entry waiting at the start is examined once, in
/// order. A ready one has its finalizer run on `world` with its handle, and
/// its handle moves to `finished`; the others go back to `waiting` in the
/// same order. Whatever the server answers, the queue afterwards is the
/// pass for some readiness of the entries present at the start.
pub fn load_resource_assets<F: Fn(&mut World, &UntypedHandle)>(
    handles: &mut ResourceHandles<UntypedHandle, F>,
    world: &mut World,
    server: &AssetServer,
)
    requires
        finalizers_callable(*old(handles)),
    ensures
        exists|r: Seq<bool>|
            r.len() == old(handles)@.waiting.len() && #[trigger] old(handles)@.pass(r)
                == final(handles)@,
{
    let ghost w0 = handles@.waiting;
    let ghost f0 = handles@.finished;
    let ghost mut r: Seq<bool> = Seq::empty();
    let n = handles.waiting_len();
    let mut i: usize = 0;
    while i < n
        invariant
            n == w0.len(),
            i <= n,
            r.len() == i,
            handles@.waiting == w0.subrange(i as int, n as int) + entries_where(
                w0.subrange(0, i as int),
                r,
                false,
            ),
            handles@.finished == f0 + handles_of(entries_where(w0.subrange(0, i as int), r, true)),
            forall|j: int, w: &mut World, h: &UntypedHandle|
                0 <= j < w0.len() ==> #[trigger] w0[j].1.requires((w, h)),
        decreases n - i,
    {
        let ready = is_loaded_with_dependencies(server, handles.waiting_handle(0));
        proof {
            let prev = r;
            r = r.push(ready);
            lemma_entries_where_same_flags(w0.subrange(0, i as int), prev, r, true);
            lemma_entries_where_same_flags(w0.subrange(0, i as int), prev, r, false);
            lemma_entries_where_extend(w0, r, i as int, true);
            lemma_entries_where_extend(w0, r, i as int, false);
        }
        let out = handles.advance(ready);
        match out {
            Some(insert) => {
                let last = handles.finished_len() - 1;
                insert(world, handles.finished_handle(last));
            },
            None => {},
        }
        proof {
            let taken = entries_where(w0.subrange(0, i as int), r, true);
            assert(handles_of(taken.push(w0[i as int])) =~= handles_of(taken).push(w0[i as int].0));
            assert(handles@.waiting =~= w0.subrange(i + 1, n as int) + entries_where(
                w0.subrange(0, i + 1),
                r,
                false,
            ));
        }
        i = i + 1;
    }
    proof {
        assert(w0.subrange(0, n as int) =~= w0);
        assert(handles@.waiting =~= entries_where(w0, r, false));
        assert(old(handles)@.pass(r) == handles@);
    }
}

} // verus!
