//! General laws of the point stream, proved once over the model: how the
//! stream unfolds from a fresh frame, from a submission mid-stream, from a
//! submission before anything was emitted, and after partial consumption.

use vstd::prelude::*;

use crate::Point;
use crate::StreamState;
use crate::state_wf;
use crate::fresh_state;
use crate::submitted_state;
use crate::step_emit;
use crate::step_state;
use crate::state_after;
use crate::stream_at;

verus! {

/// Unfolding `state_after` from the far end: the state after `n + 1` pulls
/// is one step past the state after `n` pulls.
pub proof fn lemma_state_after_step<P>(st: StreamState<P>, n: nat)
    ensures
        state_after(st, n + 1) == step_state(state_after(st, n)),
    decreases n,
{
    reveal_with_fuel(state_after, 2);
    if n > 0 {
        lemma_state_after_step(step_state(st), (n - 1) as nat);
    }
}

/// Well-formedness of the model is preserved by any number of pulls.
pub proof fn lemma_state_after_wf<P>(st: StreamState<P>, n: nat)
    requires
        state_wf(st),
    ensures
        state_wf(state_after(st, n)),
    decreases n,
{
    if n > 0 {
        lemma_state_after_wf(step_state(st), (n - 1) as nat);
    }
}

/// An empty frame yields no items at all, however many pulls are attempted,
/// as long as no blank of an earlier point is owed.
pub proof fn lemma_empty_frame_silent<P>(st: StreamState<P>, n: nat)
    requires
        st.frame.len() == 0,
        !(st.blank && st.last is Some),
    ensures
        stream_at(st, n) is None,
    decreases n,
{
    if n > 0 {
        lemma_empty_frame_silent(step_state(st), (n - 1) as nat);
    }
}

/// A run of regular emissions: while no blank is pending and the resume
/// index stays inside the frame, pull `j` yields the frame's point at
/// `ix + j`, and the state records exactly how far the run got.
pub proof fn lemma_regular_run<P>(st: StreamState<P>, j: nat)
    requires
        !st.blank,
        0 <= st.ix,
        st.ix + j < st.frame.len(),
    ensures
        stream_at(st, j) == Some(Point::Regular(st.frame[st.ix + j])),
        state_after(st, j) == (StreamState {
            frame: st.frame,
            last: if j == 0 { st.last } else { Some(st.frame[st.ix + j - 1]) },
            blank: false,
            ix: st.ix + j,
        }),
    decreases j,
{
    if j == 0 {
        assert(state_after(st, 0) =~= (StreamState {
            frame: st.frame,
            last: st.last,
            blank: false,
            ix: st.ix,
        }));
    } else {
        lemma_regular_run(step_state(st), (j - 1) as nat);
    }
}

/// The state of a fresh stream over non-empty frame `f` after `i` pulls,
/// written in closed form: the pulls cycle with period one more than the
/// frame's length (the frame's points, then one wrap blank).
spec fn cycle_state<P>(f: Seq<P>, i: nat) -> StreamState<P> {
    let n = f.len();
    let c = i % (n + 1);
    StreamState {
        frame: f,
        last: if i == 0 {
            None
        } else if c == 0 {
            Some(f[n - 1])
        } else {
            Some(f[c - 1])
        },
        blank: false,
        ix: c as int,
    }
}

/// From `(i - 1) % m` to `i % m`: the remainder advances by one and falls
/// back to zero when it reaches the modulus.
proof fn lemma_mod_succ(i: nat, m: nat)
    requires
        0 < i,
        1 < m,
    ensures
        (i - 1) % (m as int) + 1 < m ==> i % m == (i - 1) % (m as int) + 1,
        (i - 1) % (m as int) + 1 == m ==> i % m == 0,
{
    let c = (i - 1) % (m as int);
    vstd::arithmetic::div_mod::lemma_mod_bound(i - 1, m as int);
    vstd::arithmetic::div_mod::lemma_add_mod_noop(i - 1, 1, m as int);
    vstd::arithmetic::div_mod::lemma_small_mod(1, m);
    if c + 1 < m {
        vstd::arithmetic::div_mod::lemma_small_mod((c + 1) as nat, m);
    } else {
        vstd::arithmetic::div_mod::lemma_mod_self_0(m as int);
    }
}

/// The state of a fresh stream over a non-empty frame matches its closed
/// form after any number of pulls.
proof fn lemma_fresh_state_after<P>(f: Seq<P>, i: nat)
    requires
        f.len() > 0,
    ensures
        state_after(fresh_state(f), i) == cycle_state(f, i),
    decreases i,
{
    let n = f.len();
    let m = n + 1;
    if i == 0 {
        vstd::arithmetic::div_mod::lemma_small_mod(0, m);
        assert(state_after(fresh_state(f), 0) =~= cycle_state(f, 0));
    } else {
        lemma_fresh_state_after(f, (i - 1) as nat);
        lemma_state_after_step(fresh_state(f), (i - 1) as nat);
        let prev = cycle_state(f, (i - 1) as nat);
        let c = (i - 1) % (m as int);
        vstd::arithmetic::div_mod::lemma_mod_bound(i - 1, m as int);
        lemma_mod_succ(i, m);
        if c < n {
            assert(step_state(prev) =~= cycle_state(f, i));
        } else {
            assert(c == n);
            assert(i - 1 > 0) by {
                if i - 1 == 0 {
                    vstd::arithmetic::div_mod::lemma_small_mod(0, m);
                }
            }
            assert(step_state(prev) =~= cycle_state(f, i));
        }
    }
}

/// The full cycle law for a fresh stream over a non-empty frame `f` of
/// length `n`: pull number `i` yields the frame's point at `i % (n + 1)` as
/// a regular item while that remainder is inside the frame, and a blank copy
/// of the frame's last point when the remainder equals `n`. In particular
/// the first `n` items are the frame in order with no blank before them,
/// item `n` blanks the frame's last point, and the frame then repeats.
pub proof fn lemma_fresh_cycle<P>(f: Seq<P>, i: nat)
    requires
        f.len() > 0,
    ensures
        i % (f.len() + 1) < f.len() ==> stream_at(fresh_state(f), i)
            == Some(Point::Regular(f[(i % (f.len() + 1)) as int])),
        i % (f.len() + 1) == f.len() ==> stream_at(fresh_state(f), i)
            == Some(Point::Blank(f[f.len() - 1])),
{
    let n = f.len();
    let m = n + 1;
    lemma_fresh_state_after(f, i);
    vstd::arithmetic::div_mod::lemma_mod_bound(i as int, m as int);
    let c = i % m;
    if c == n {
        assert(i > 0) by {
            if i == 0 {
                vstd::arithmetic::div_mod::lemma_small_mod(0, m);
            }
        }
    }
}

/// After a frame `f2` is submitted mid-stream, with `p` the point last
/// emitted, the very next item is a blank copy of `p`; then the regular
/// points of `f2` follow in order from its first element, and if `f2` is
/// empty, nothing at all follows the blank.
pub proof fn lemma_submit_mid_stream<P>(f2: Seq<P>, p: P, j: nat)
    ensures
        stream_at(submitted_state(f2, Some(p)), 0) == Some(Point::Blank(p)),
        j < f2.len() ==> stream_at(submitted_state(f2, Some(p)), j + 1)
            == Some(Point::Regular(f2[j as int])),
        f2.len() == 0 ==> stream_at(submitted_state(f2, Some(p)), j + 1) is None,
{
    let st = submitted_state(f2, Some(p));
    let cleared = step_state(st);
    assert(stream_at(st, j + 1) == stream_at(cleared, j));
    if j < f2.len() {
        lemma_regular_run(cleared, j);
    }
    if f2.len() == 0 {
        lemma_empty_frame_silent(cleared, j);
    }
}

/// A frame submitted before anything was ever emitted schedules no
/// observable blank: the stream starts directly with the frame's points as
/// regular items, and an empty frame yields nothing at all.
pub proof fn lemma_submit_before_any_emission<P>(f: Seq<P>, j: nat)
    ensures
        j < f.len() ==> stream_at(submitted_state(f, None), j)
            == Some(Point::Regular(f[j as int])),
        f.len() == 0 ==> stream_at(submitted_state(f, None), j) is None,
{
    let st = submitted_state(f, None);
    if f.len() == 0 {
        lemma_empty_frame_silent(st, j);
    } else if 0 < j < f.len() {
        let stepped = step_state(st);
        assert(stream_at(st, j) == stream_at(stepped, (j - 1) as nat));
        lemma_regular_run(stepped, (j - 1) as nat);
    }
}

/// Partial consumption is durable: after exactly `k` pulls from a fresh
/// frame `f`, with the run still short of the frame's end, the state records
/// position `k`, and further pulls continue with the frame's point at
/// `k + j` — not with a restart from the frame's start.
pub proof fn lemma_partial_consumption_resumes<P>(f: Seq<P>, k: nat, j: nat)
    requires
        k + j < f.len(),
    ensures
        state_after(fresh_state(f), k) == (StreamState {
            frame: f,
            last: if k == 0 { None } else { Some(f[k - 1]) },
            blank: false,
            ix: k as int,
        }),
        stream_at(state_after(fresh_state(f), k), j) == Some(Point::Regular(f[(k + j) as int])),
{
    lemma_regular_run(fresh_state(f), k);
    lemma_regular_run(state_after(fresh_state(f), k), j);
}

} // verus!

