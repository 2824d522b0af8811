//! Pending spawns: where a spawned entity's model comes from, and which
//! pending spawns remain once some have completed.
use crate::text::concat2;
use vstd::prelude::*;

verus! {

/// What a scene entity's model reference points at.
#[derive(Clone, Copy, PartialEq, Eq, Structural, Debug)]
pub enum ModelReference {
    /// A file of the project.
    File,
    /// Model bytes held in the scene.
    Bytes,
    /// The built-in cube.
    Cube,
    /// Nothing.
    Nothing,
    /// The built-in plane.
    Plane,
}

/// How the model of a spawned entity is loaded.
#[derive(Clone, Copy, PartialEq, Eq, Structural, Debug)]
pub enum MeshSource {
    FromPath,
    FromBytes,
    /// From the bytes of the built-in cube model.
    BuiltinCube,
}

/// Why a spawned entity's model cannot be loaded.
#[derive(Clone, Copy, PartialEq, Eq, Structural, Debug)]
pub enum MeshSourceError {
    NoModelReference,
    PlaneNotSupported,
}

/// How a model reference is loaded.
pub open spec fn mesh_source_spec(r: ModelReference) -> Result<MeshSource, MeshSourceError> {
    match r {
        ModelReference::File => Ok(MeshSource::FromPath),
        ModelReference::Bytes => Ok(MeshSource::FromBytes),
        ModelReference::Cube => Ok(MeshSource::BuiltinCube),
        ModelReference::Nothing => Err(MeshSourceError::NoModelReference),
        ModelReference::Plane => Err(MeshSourceError::PlaneNotSupported),
    }
}

/// How the model of a spawned entity is loaded; a missing reference and the
/// plane cannot be.
pub fn mesh_source(r: ModelReference) -> (s: Result<MeshSource, MeshSourceError>)
    ensures
        s == mesh_source_spec(r),
{
    match r {
        ModelReference::File => Ok(MeshSource::FromPath),
        ModelReference::Bytes => Ok(MeshSource::FromBytes),
        ModelReference::Cube => Ok(MeshSource::BuiltinCube),
        ModelReference::Nothing => Err(MeshSourceError::NoModelReference),
        ModelReference::Plane => Err(MeshSourceError::PlaneNotSupported),
    }
}

/// The message reported when the model of entity `label` cannot be loaded.
pub fn mesh_source_error_message(e: MeshSourceError, label: &str) -> (r: String)
    ensures
        r@ == match e {
            MeshSourceError::NoModelReference => "No model reference provided for entity '"@ + label@
                + "'"@,
            MeshSourceError::PlaneNotSupported =>
                "Plane resource type not yet supported in spawn controller for entity '"@ + label@
                + "'"@,
        },
{
    let head = match e {
        MeshSourceError::NoModelReference => concat2("No model reference provided for entity '", label),
        MeshSourceError::PlaneNotSupported => concat2(
            "Plane resource type not yet supported in spawn controller for entity '",
            label,
        ),
    };
    concat2(head.as_str(), "'")
}

/// A model is loaded from a file, from bytes or as the built-in cube exactly
/// for those references; a missing reference and the plane are refused,
/// each with its own error.
pub proof fn law_mesh_sources(r: ModelReference)
    ensures
        (mesh_source_spec(r) == Ok::<MeshSource, MeshSourceError>(MeshSource::FromPath)) == (r
            == ModelReference::File),
        (mesh_source_spec(r) == Ok::<MeshSource, MeshSourceError>(MeshSource::FromBytes)) == (r
            == ModelReference::Bytes),
        (mesh_source_spec(r) == Ok::<MeshSource, MeshSourceError>(MeshSource::BuiltinCube)) == (r
            == ModelReference::Cube),
        (mesh_source_spec(r) == Err::<MeshSource, MeshSourceError>(
            MeshSourceError::NoModelReference,
        )) == (r == ModelReference::Nothing),
        (mesh_source_spec(r) == Err::<MeshSource, MeshSourceError>(
            MeshSourceError::PlaneNotSupported,
        )) == (r == ModelReference::Plane),
{
}

/// The spawns among the first `n` of `s` whose position is not in `done`, in order.
pub open spec fn kept_spawns<T>(s: Seq<T>, done: Seq<usize>, n: nat) -> Seq<T>
    decreases n,
{
    if n == 0 {
        Seq::empty()
    } else {
        let p = kept_spawns(s, done, (n - 1) as nat);
        if done.contains((n - 1) as usize) {
            p
        } else {
            p.push(s[n - 1])
        }
    }
}

/// Whether `i` is among `done`.
fn is_done(done: &Vec<usize>, i: usize) -> (r: bool)
    ensures
        r == done@.contains(i),
{
    let mut j: usize = 0;
    while j < done.len()
        invariant
            j <= done@.len(),
            forall|q: int| 0 <= q < j ==> done@[q] != i,
        decreases done@.len() - j,
    {
        if done[j] == i {
            return true;
        }
        j = j + 1;
    }
    false
}

/// Drops the pending spawns whose positions are listed in `completed`;
/// the others stay, in order.
pub fn remove_completed<T>(spawns: &mut Vec<T>, completed: &Vec<usize>)
    ensures
        final(spawns)@ == kept_spawns(old(spawns)@, completed@, old(spawns)@.len()),
{
    let ghost all = old(spawns)@;
    let total = spawns.len();
    let mut rest: Vec<T> = Vec::new();
    std::mem::swap(&mut rest, spawns);
    let mut n: usize = 0;
    while rest.len() > 0
        invariant
            n + rest@.len() == all.len(),
            all.len() == total,
            rest@ == all.subrange(n as int, all.len() as int),
            spawns@ == kept_spawns(all, completed@, n as nat),
        decreases rest@.len(),
    {
        let x = rest.remove(0);
        assert(x == all[n as int]);
        if !is_done(completed, n) {
            spawns.push(x);
        }
        n = n + 1;
        assert(rest@ =~= all.subrange(n as int, all.len() as int));
    }
}

/// With nothing completed, every pending spawn stays.
pub proof fn law_nothing_completed_keeps_all<T>(s: Seq<T>, n: nat)
    requires
        n <= s.len(),
    ensures
        kept_spawns(s, Seq::empty(), n) == s.take(n as int),
    decreases n,
{
    if n > 0 {
        law_nothing_completed_keeps_all(s, (n - 1) as nat);
        assert(s.take(n as int) =~= s.take(n - 1).push(s[n - 1]));
    }
}

/// A completed spawn never stays, and every spawn that stays is one that did
/// not complete, found at a position of the list.
pub proof fn law_completed_spawns_leave<T>(s: Seq<T>, done: Seq<usize>, n: nat)
    requires
        n <= s.len(),
    ensures
        kept_spawns(s, done, n).len() <= n,
        forall|k: int| 0 <= k < kept_spawns(s, done, n).len() ==> exists|i: int|
            0 <= i < n && !done.contains(i as usize) && #[trigger] kept_spawns(s, done, n)[k]
                == s[i],
    decreases n,
{
    if n > 0 {
        law_completed_spawns_leave(s, done, (n - 1) as nat);
        let p = kept_spawns(s, done, (n - 1) as nat);
        assert forall|k: int| 0 <= k < kept_spawns(s, done, n).len() implies exists|i: int|
            0 <= i < n && !done.contains(i as usize) && #[trigger] kept_spawns(s, done, n)[k]
                == s[i] by {
            if k < p.len() {
                assert(kept_spawns(s, done, n)[k] == p[k]);
                let i = choose|i: int| 0 <= i < n - 1 && !done.contains(i as usize) && #[trigger] p[k] == s[i];
                assert(0 <= i < n && !done.contains(i as usize) && kept_spawns(s, done, n)[k] == s[i]);
            } else {
                assert(kept_spawns(s, done, n)[k] == s[n - 1]);
            }
        }
    }
}

/// The entities that the loaded spawns became, in order (a spawn that failed
/// to load is `None`).
pub open spec fn spawned_ids(s: Seq<Option<u64>>) -> Seq<u64>
    decreases s.len(),
{
    if s.len() == 0 {
        Seq::empty()
    } else {
        let p = spawned_ids(s.drop_last());
        match s.last() {
            Some(e) => p.push(e),
            None => p,
        }
    }
}

/// Takes in the spawns drained this frame, in order: each spawned entity
/// gets an undo entry (returned in order), and the last one spawned becomes
/// the selection; when none spawned the selection stays.
pub fn record_spawns(spawned: &Vec<Option<u64>>, selected: Option<u64>) -> (r: (Option<u64>, Vec<u64>))
    ensures
        r.1@ == spawned_ids(spawned@),
        r.0 == (if spawned_ids(spawned@).len() > 0 {
            Some(spawned_ids(spawned@).last())
        } else {
            selected
        }),
{
    let mut sel = selected;
    let mut ids: Vec<u64> = Vec::new();
    let mut i: usize = 0;
    while i < spawned.len()
        invariant
            i <= spawned@.len(),
            ids@ == spawned_ids(spawned@.take(i as int)),
            sel == (if ids@.len() > 0 {
                Some(ids@.last())
            } else {
                selected
            }),
        decreases spawned@.len() - i,
    {
        assert(spawned@.take(i + 1).drop_last() =~= spawned@.take(i as int));
        match spawned[i] {
            Some(e) => {
                ids.push(e);
                sel = Some(e);
            },
            None => {},
        }
        i = i + 1;
    }
    assert(spawned@.take(spawned@.len() as int) =~= spawned@);
    (sel, ids)
}

} // verus!
