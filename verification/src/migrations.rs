//! Schema migrations: which of the known migrations a database still needs.
//! Applying them is the caller's (it owns the connection).

use vstd::prelude::*;

verus! {

/// Positions, in order, of the migrations newer than the database's
/// current version.
pub open spec fn pending_spec(versions: Seq<u32>, current: u32) -> Seq<int>
    decreases versions.len(),
{
    if versions.len() == 0 {
        Seq::empty()
    } else {
        let prev = pending_spec(versions.drop_last(), current);
        if versions.last() > current {
            prev.push(versions.len() - 1)
        } else {
            prev
        }
    }
}

/// The migrations to apply, in list order: those whose version exceeds
/// `current`, the highest version already applied (0 for a new database).
pub fn pending_migrations(versions: &Vec<u32>, current: u32) -> (r: Vec<usize>)
    ensures
        r@.map_values(|i: usize| i as int) == pending_spec(versions@, current),
{
    let mut out: Vec<usize> = Vec::new();
    let mut i: usize = 0;
    while i < versions.len()
        invariant
            i <= versions@.len(),
            out@.map_values(|k: usize| k as int) == pending_spec(versions@.subrange(0, i as int), current),
        decreases versions@.len() - i,
    {
        proof {
            assert(versions@.subrange(0, i + 1).drop_last() =~= versions@.subrange(0, i as int));
        }
        if versions[i] > current {
            let ghost before = out@;
            out.push(i);
            assert(out@.map_values(|k: usize| k as int) =~= before.map_values(|k: usize| k as int).push(i as int));
        }
        i = i + 1;
    }
    assert(versions@.subrange(0, versions@.len() as int) =~= versions@);
    out
}

} // verus!
