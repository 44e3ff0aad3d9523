//! Laws of the generation lifecycle over sequences of reloads and calls.

use vstd::prelude::*;
use crate::state::{called, reload_step, well_formed, WasmState};

verus! {

/// How many of the attempts succeeded.
pub open spec fn successes(attempts: Seq<(Seq<u8>, bool)>) -> nat
    decreases attempts.len(),
{
    if attempts.len() == 0 {
        0
    } else {
        successes(attempts.drop_last()) + if attempts.last().1 { 1nat } else { 0nat }
    }
}

/// The artifact of the last attempt that succeeded, or `initial` if none did.
pub open spec fn last_loaded(initial: Seq<u8>, attempts: Seq<(Seq<u8>, bool)>) -> Seq<u8>
    decreases attempts.len(),
{
    if attempts.len() == 0 {
        initial
    } else if attempts.last().1 {
        attempts.last().0
    } else {
        last_loaded(initial, attempts.drop_last())
    }
}

/// Over any sequence of reload attempts, each given as its artifact and
/// whether it succeeded, the live generation is the one built whole from the
/// artifact of the last successful attempt (or the first generation, if none
/// succeeded), and one generation was installed per success. Since a
/// generation is one value whose parts only its build makes, no state in the
/// sequence pairs parts of two generations.
pub proof fn lemma_reloads_replace_whole_generations(states: Seq<WasmState>, attempts: Seq<(Seq<u8>, bool)>)
    requires
        states.len() == attempts.len() + 1,
        well_formed(states[0]),
        forall|i: int|
            0 <= i < attempts.len() ==> reload_step(
                #[trigger] states[i],
                states[i + 1],
                attempts[i].0,
                attempts[i].1,
            ),
    ensures
        states.last().current().artifact() == last_loaded(states[0].current().artifact(), attempts),
        well_formed(states.last()),
        states.last().generation() == states[0].generation() + successes(attempts),
        states.last().engine() == states[0].engine(),
        states.last().export() == states[0].export(),
    decreases attempts.len(),
{
    if attempts.len() > 0 {
        let n = attempts.len() - 1;
        let earlier = states.drop_last();
        assert forall|i: int| 0 <= i < n implies reload_step(
            #[trigger] earlier[i],
            earlier[i + 1],
            attempts.drop_last()[i].0,
            attempts.drop_last()[i].1,
        ) by {
            assert(reload_step(states[i], states[i + 1], attempts[i].0, attempts[i].1));
        }
        lemma_reloads_replace_whole_generations(earlier, attempts.drop_last());
        assert(reload_step(states[n], states[n + 1], attempts[n].0, attempts[n].1));
    }
}

/// A failed reload changes nothing: a call made after it starts from the
/// very state that a call made before it would have started from.
pub proof fn lemma_failed_reload_is_no_op(pre: WasmState, mid: WasmState, post: WasmState, artifact: Seq<u8>)
    requires
        reload_step(pre, mid, artifact, false),
        called(mid, post),
    ensures
        mid == pre,
        called(pre, post),
{
}

/// A reload becomes visible to the calls that start after it: a call made
/// after a successful reload runs in the generation built from its
/// artifact, the next one in the count.
pub proof fn lemma_call_after_reload_uses_new_generation(
    pre: WasmState,
    mid: WasmState,
    post: WasmState,
    artifact: Seq<u8>,
)
    requires
        reload_step(pre, mid, artifact, true),
        called(mid, post),
    ensures
        post.current().artifact() == artifact,
        post.current().export() == pre.export(),
        post.generation() == pre.generation() + 1,
{
}

/// Two calls made one after the other against one generation both run in
/// it: neither leaves the generation, and only its context changes.
pub proof fn lemma_calls_stay_in_generation(s0: WasmState, s1: WasmState, s2: WasmState)
    requires
        called(s0, s1),
        called(s1, s2),
    ensures
        called(s0, s2),
{
}

} // verus!
