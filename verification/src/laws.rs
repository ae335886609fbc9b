//! The guarantees the animator gives across whole runs, stated and proved
//! once for all inputs.

use vstd::prelude::*;

use crate::animator::{App, Direction, Key, spec_big_rate, spec_flip, spec_little_rate, spec_run,
    spec_step, spec_update_color, wf, START_X, START_Y, TOP_INDEX};

verus! {

/// One key press keeps the animator well-formed: the color indices still sum
/// to the top index afterwards.
pub proof fn lemma_step_preserves_wf(s: App, key: Key)
    requires
        wf(s),
    ensures
        wf(spec_step(s, key)),
{
}

/// Under every sequence of key presses — Up and Down presses included — the
/// color indices keep summing to the top index, so each of them stays within
/// the rainbow table.
pub proof fn lemma_run_preserves_wf(s: App, keys: Seq<Key>)
    requires
        wf(s),
    ensures
        wf(spec_run(s, keys)),
        spec_run(s, keys).fg_index + spec_run(s, keys).bg_index == TOP_INDEX,
        spec_run(s, keys).fg_index <= TOP_INDEX,
        spec_run(s, keys).bg_index <= TOP_INDEX,
    decreases keys.len(),
{
    if keys.len() > 0 {
        lemma_step_preserves_wf(s, keys[0]);
        lemma_run_preserves_wf(spec_step(s, keys[0]), keys.drop_first());
    }
}

/// Pressing Up once the foreground index has reached the top changes
/// nothing, and so does pressing Down once it has reached zero.
pub proof fn lemma_color_steps_clamp(s: App)
    requires
        wf(s),
    ensures
        s.fg_index == TOP_INDEX ==> spec_update_color(s, true) == s,
        s.fg_index == 0 ==> spec_update_color(s, false) == s,
{
}

/// The two squares always spin exactly opposite to one another, and
/// reversing the direction negates both speeds.
pub proof fn lemma_rates_opposite(d: Direction)
    ensures
        spec_little_rate(d) == -spec_big_rate(d),
        spec_big_rate(spec_flip(d)) == -spec_big_rate(d),
        spec_little_rate(spec_flip(d)) == -spec_little_rate(d),
{
}

/// Space puts the position back at the start, whatever came before.
pub proof fn lemma_space_resets(s: App)
    ensures
        spec_step(s, Key::Space).x == START_X,
        spec_step(s, Key::Space).y == START_Y,
{
}

} // verus!
