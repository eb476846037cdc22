//! The display brightness dispatcher: applies one brightness command to
//! every attached physical display, isolating per-display failures.
//!
//! Displays are modelled as plain records of the brightness they last
//! accepted and whether they currently accept commands at all; the platform
//! layer enumerates the real monitors fresh on every call (hot-plugged
//! displays are honoured) and reports each one's outcome. A display that
//! rejects the command — unreachable, or without hardware brightness
//! control — is skipped silently; the remaining displays are still visited,
//! and the operation as a whole never fails.

use vstd::prelude::*;

verus! {

/// One attached physical display, as the dispatcher sees it: the brightness
/// it last accepted, and whether it currently accepts brightness commands.
#[derive(Clone, Copy, Debug, PartialEq, Eq, Structural)]
pub struct Display {
    pub brightness: u8,
    pub responsive: bool,
}

/// One display after one command: a responsive display takes the commanded
/// brightness, an unresponsive one is left as it was.
pub open spec fn spec_dispatch_one(d: Display, cmd: u8) -> Display {
    if d.responsive {
        Display { brightness: cmd, ..d }
    } else {
        d
    }
}

/// All displays after one command, each visited exactly once.
pub open spec fn spec_dispatch_all(ds: Seq<Display>, cmd: u8) -> Seq<Display> {
    ds.map_values(|d: Display| spec_dispatch_one(d, cmd))
}

/// How many of the displays currently accept brightness commands.
pub open spec fn spec_responsive_count(ds: Seq<Display>) -> nat
    decreases ds.len(),
{
    if ds.len() == 0 {
        0
    } else {
        spec_responsive_count(ds.drop_last()) + (if ds.last().responsive {
            1nat
        } else {
            0nat
        })
    }
}

/// Applying the same brightness command twice leaves the displays exactly
/// as one application does: nothing accumulates.
pub proof fn lemma_dispatch_idempotent(ds: Seq<Display>, cmd: u8)
    ensures
        spec_dispatch_all(spec_dispatch_all(ds, cmd), cmd) == spec_dispatch_all(ds, cmd),
{
    let once = spec_dispatch_all(ds, cmd);
    let twice = spec_dispatch_all(once, cmd);
    assert forall|i: int| 0 <= i < ds.len() implies twice[i] == once[i] by {
        assert(once[i] == spec_dispatch_one(ds[i], cmd));
        assert(twice[i] == spec_dispatch_one(once[i], cmd));
    }
    assert(twice =~= once);
}

/// Issues one brightness command to every attached display, in order.
/// A display that does not accept the command is skipped; the rest are
/// still visited, and every responsive display receives exactly `cmd`.
/// Returns exactly how many displays accepted the command; zero makes the
/// whole call a no-op, never an error.
pub fn dispatch_brightness(ds: &mut Vec<Display>, cmd: u8) -> (applied: usize)
    requires
        cmd <= 100,
    ensures
        final(ds)@ == spec_dispatch_all(old(ds)@, cmd),
        final(ds)@.len() == old(ds)@.len(),
        forall|i: int|
            0 <= i < old(ds)@.len() && old(ds)@[i].responsive ==> final(ds)@[i].brightness == cmd,
        forall|i: int|
            0 <= i < old(ds)@.len() && !old(ds)@[i].responsive ==> final(ds)@[i] == old(ds)@[i],
        forall|i: int|
            0 <= i < old(ds)@.len() ==> final(ds)@[i].responsive == old(ds)@[i].responsive,
        applied == spec_responsive_count(old(ds)@),
{
    let mut applied: usize = 0;
    let mut i: usize = 0;
    proof {
        assert(old(ds)@.take(0) =~= Seq::<Display>::empty());
    }
    while i < ds.len()
        invariant
            i <= ds@.len(),
            ds@.len() == old(ds)@.len(),
            applied <= i,
            applied == spec_responsive_count(old(ds)@.take(i as int)),
            forall|j: int| 0 <= j < i ==> ds@[j] == spec_dispatch_one(old(ds)@[j], cmd),
            forall|j: int| i <= j < ds@.len() ==> ds@[j] == old(ds)@[j],
        decreases ds@.len() - i,
    {
        if ds[i].responsive {
            let d = Display { brightness: cmd, responsive: true };
            ds.set(i, d);
            applied = applied + 1;
        }
        proof {
            assert(old(ds)@.take(i as int + 1).drop_last() =~= old(ds)@.take(i as int));
            assert(old(ds)@.take(i as int + 1).last() == old(ds)@[i as int]);
        }
        i = i + 1;
    }
    proof {
        assert(old(ds)@.take(old(ds)@.len() as int) =~= old(ds)@);
        assert(ds@ =~= spec_dispatch_all(old(ds)@, cmd));
    }
    applied
}

} // verus!
