//! The general guarantees of the decay engine, proved once over the
//! decay model and usable by any caller.
use vstd::prelude::*;
use crate::constants::{DECAY_TIME, MAX_DECAY_TICKS};
use crate::pet::Pet;
use crate::utils::{spec_decay, spec_elapsed, spec_ticks};

verus! {

/// Decay keeps every record invariant: the stats stay in [0, 100], a
/// dead pet keeps both stats at exactly zero, death is permanent,
/// `last_update` never moves backwards and never beyond the clock
/// reading, and decay touches nothing but the stats, liveness and
/// `last_update`. Holding at every step, this carries over every decay
/// sequence.
pub proof fn lemma_decay_preserves_invariant(p: Pet, now: i64)
    requires
        p.wf(),
    ensures
        spec_decay(p, now).wf(),
        p.death_zeroed() ==> spec_decay(p, now).death_zeroed(),
        !p.alive ==> !spec_decay(p, now).alive,
        p.last_update <= spec_decay(p, now).last_update,
        p.last_update <= now ==> spec_decay(p, now).last_update <= now,
        spec_decay(p, now).name == p.name,
        spec_decay(p, now).total_sol_received == p.total_sol_received,
        spec_decay(p, now).last_feeder == p.last_feeder,
{
    let e = spec_elapsed(p.last_update, now);
    let d = DECAY_TIME as int;
    vstd::arithmetic::div_mod::lemma_fundamental_div_mod(e, d);
    vstd::arithmetic::div_mod::lemma_mod_bound(e, d);
    assert(spec_ticks(p.last_update, now) * d <= e);
}

/// Decaying is idempotent: once a decay application has settled a pet at
/// a clock reading, a second application at the same reading finds no
/// whole interval elapsed and changes nothing. This needs the tick count
/// not to have hit its clamp (the clamp throws the excess intervals
/// away, to be settled by a later call); a gap of at most 255 intervals
/// is settled in one go.
pub proof fn lemma_decay_idempotent(p: Pet, now: i64)
    requires
        p.wf(),
        spec_elapsed(p.last_update, now) < (MAX_DECAY_TICKS as int + 1) * (DECAY_TIME as int),
    ensures
        spec_ticks(spec_decay(p, now).last_update, now) == 0,
        spec_decay(spec_decay(p, now), now) == spec_decay(p, now),
{
    let e = spec_elapsed(p.last_update, now);
    let d = DECAY_TIME as int;
    let t = spec_ticks(p.last_update, now);
    vstd::arithmetic::div_mod::lemma_fundamental_div_mod(e, d);
    vstd::arithmetic::div_mod::lemma_mod_bound(e, d);
    let q = spec_decay(p, now);
    if t == 0 {
        assert(q == p);
    } else {
        assert(q.last_update == p.last_update + t * d);
        assert(spec_elapsed(q.last_update, now) == e - t * d);
        assert(e - t * d < d);
        assert(spec_ticks(q.last_update, now) == 0);
    }
    assert(spec_decay(q, now) == q);
}

/// A pet that outlives a decay application was settled without clamping:
/// a survivor kept some hunger, so fewer than 100 ticks ever applied,
/// and a second application at the same reading is a no-op. This is the
/// idempotence law with no side condition, for the living.
pub proof fn lemma_live_decay_idempotent(p: Pet, now: i64)
    requires
        p.wf(),
        spec_decay(p, now).alive,
    ensures
        spec_ticks(spec_decay(p, now).last_update, now) == 0,
        spec_decay(spec_decay(p, now), now) == spec_decay(p, now),
{
    let e = spec_elapsed(p.last_update, now);
    let d = DECAY_TIME as int;
    let t = spec_ticks(p.last_update, now);
    vstd::arithmetic::div_mod::lemma_fundamental_div_mod(e, d);
    vstd::arithmetic::div_mod::lemma_mod_bound(e, d);
    if t != 0 {
        assert(t < p.hunger);
        assert(e / d < MAX_DECAY_TICKS as int);
        assert(e < (MAX_DECAY_TICKS as int + 1) * d);
    }
    lemma_decay_idempotent(p, now);
}

/// Time is conserved across split settlements: decaying up to `mid` and
/// then up to `now` lands on exactly the same pet — stats, liveness and
/// `last_update` — as one decay covering the whole span, because
/// `last_update` keeps the fractional remainder of every step. As with
/// idempotence, the whole span must stay under the tick clamp.
pub proof fn lemma_decay_composes(p: Pet, mid: i64, now: i64)
    requires
        p.wf(),
        mid <= now,
        spec_elapsed(p.last_update, now) < (MAX_DECAY_TICKS as int + 1) * (DECAY_TIME as int),
    ensures
        spec_decay(spec_decay(p, mid), now) == spec_decay(p, now),
{
    let d = DECAY_TIME as int;
    let lu = p.last_update as int;
    if mid < p.last_update {
        assert(spec_ticks(p.last_update, mid) == 0);
        assert(spec_decay(p, mid) == p);
    } else {
        let e1 = spec_elapsed(p.last_update, mid);
        let ee = spec_elapsed(p.last_update, now);
        let t1 = spec_ticks(p.last_update, mid);
        let tt = spec_ticks(p.last_update, now);
        vstd::arithmetic::div_mod::lemma_fundamental_div_mod(e1, d);
        vstd::arithmetic::div_mod::lemma_mod_bound(e1, d);
        vstd::arithmetic::div_mod::lemma_fundamental_div_mod(ee, d);
        vstd::arithmetic::div_mod::lemma_mod_bound(ee, d);
        assert(e1 <= ee);
        vstd::arithmetic::div_mod::lemma_div_is_ordered(e1, ee, d);
        assert(t1 == e1 / d && tt == ee / d);
        if t1 == 0 {
            assert(spec_decay(p, mid) == p);
        } else {
            let q = spec_decay(p, mid);
            assert(q.last_update == lu + t1 * d);
            let e2 = spec_elapsed(q.last_update, now);
            assert(e2 == ee - t1 * d);
            vstd::arithmetic::div_mod::lemma_fundamental_div_mod_converse(e2, d, tt - t1, ee % d);
            assert(spec_ticks(q.last_update, now) == tt - t1);
            let t2 = tt - t1;
            if t2 == 0 {
                assert(spec_decay(q, now) == q);
                assert(spec_decay(p, now) == q);
            } else {
                assert(spec_decay(spec_decay(p, mid), now) =~= spec_decay(p, now));
            }
        }
    }
}

} // verus!
