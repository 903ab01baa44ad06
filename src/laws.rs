//! Properties that hold across calls: what a snapshot owes for an offline
//! supervisor, that rebuilding changes nothing, and how the confirmation
//! protocol guards each risk tier.

use vstd::prelude::*;

use crate::actions::Risk;
use crate::app::{next_index, prev_index, step, token, typed_after, Control, Effect, Key, PendingView, Tab};
use crate::process::ProcessTable;
use crate::state::{bot_warnings, pair_ok, snapshot_spec, LogDirectory, RegistryEntry, Snapshot};

verus! {

/// The number of entries among the first `n` whose pair lacks an asset.
pub open spec fn malformed_pairs(entries: Seq<RegistryEntry>, n: nat) -> nat
    decreases n,
{
    if n == 0 {
        0
    } else {
        malformed_pairs(entries, (n - 1) as nat) + (if pair_ok(entries[n - 1]) { 0nat } else { 1nat })
    }
}

proof fn lemma_bot_warnings_cover_pairs(entries: Seq<RegistryEntry>, t: ProcessTable, dir: LogDirectory, n: nat)
    requires
        n <= entries.len(),
    ensures
        bot_warnings(entries, t, dir, n) >= malformed_pairs(entries, n),
    decreases n,
{
    if n > 0 {
        lemma_bot_warnings_cover_pairs(entries, t, dir, (n - 1) as nat);
    }
}

/// With the supervisor offline, a registry of N entries gives N bots, an
/// offline flag, and at least one warning plus one per entry whose pair
/// lacks an asset.
pub proof fn lemma_offline_snapshot(entries: Seq<RegistryEntry>, t: ProcessTable, dir: LogDirectory)
    ensures
        snapshot_spec(Some(entries), t, false, dir).bots.len() == entries.len(),
        !snapshot_spec(Some(entries), t, false, dir).pm2_online,
        snapshot_spec(Some(entries), t, false, dir).warnings >= 1 + malformed_pairs(entries, entries.len()),
{
    lemma_bot_warnings_cover_pairs(entries, t, dir, entries.len());
}

/// Building the snapshot twice from unchanged registry, supervisor and logs
/// gives two equal snapshots.
pub proof fn lemma_rebuild_is_stable(
    a: Snapshot,
    b: Snapshot,
    registry: Option<Seq<RegistryEntry>>,
    t: ProcessTable,
    online: bool,
    dir: LogDirectory,
)
    requires
        a@ == snapshot_spec(registry, t, online, dir),
        b@ == snapshot_spec(registry, t, online, dir),
    ensures
        a@ == b@,
{
}

/// A safe action runs on the run input itself, with no further input.
pub proof fn lemma_safe_runs_at_once(c: Control, bots: nat, risks: Seq<Risk>)
    requires
        c.pending is None,
        c.selected_action < risks.len(),
        risks[c.selected_action as int] == Risk::Safe,
    ensures
        step(c, bots, risks, Key::Char('x')).1 == Effect::Run(c.selected_action as usize),
        step(c, bots, risks, Key::Char('x')).0.pending is None,
{
    let i = c.selected_action % risks.len();
    assert(i == c.selected_action) by (nonlinear_arith)
        requires
            i == c.selected_action % risks.len(),
            c.selected_action < risks.len(),
    ;
}

/// A confirm action is armed by the run input, then runs on exactly one
/// affirmative input; no other input runs it.
pub proof fn lemma_confirm_needs_one_yes(c: Control, bots: nat, risks: Seq<Risk>, other: Key)
    requires
        c.pending is None,
        c.selected_action < risks.len(),
        risks[c.selected_action as int] == Risk::Confirm,
        other != Key::Char('y'),
        other != Key::Char('Y'),
    ensures
        step(c, bots, risks, Key::Char('x')).1 == Effect::Stay,
        step(step(c, bots, risks, Key::Char('x')).0, bots, risks, Key::Char('y')).1
            == Effect::Run(c.selected_action as usize),
        step(step(c, bots, risks, Key::Char('x')).0, bots, risks, Key::Char('Y')).1
            == Effect::Run(c.selected_action as usize),
        step(step(c, bots, risks, Key::Char('x')).0, bots, risks, other).1 == Effect::Stay,
{
    let i = c.selected_action % risks.len();
    assert(i == c.selected_action) by (nonlinear_arith)
        requires
            i == c.selected_action % risks.len(),
            c.selected_action < risks.len(),
    ;
}

/// A danger action is armed by the run input with nothing typed.
pub proof fn lemma_danger_arms_empty(c: Control, bots: nat, risks: Seq<Risk>)
    requires
        c.pending is None,
        c.selected_action < risks.len(),
        risks[c.selected_action as int] == Risk::Danger,
    ensures
        step(c, bots, risks, Key::Char('x')).1 == Effect::Stay,
        step(c, bots, risks, Key::Char('x')).0.pending == Some(
            PendingView::Danger(c.selected_action, Seq::empty()),
        ),
{
    let i = c.selected_action % risks.len();
    assert(i == c.selected_action) by (nonlinear_arith)
        requires
            i == c.selected_action % risks.len(),
            c.selected_action < risks.len(),
    ;
}

/// A pending danger action runs on an input exactly when that input is the
/// submit key and the typed text is the token; a prefix of the token, or
/// the token in another case, runs nothing.
pub proof fn lemma_danger_needs_token(c: Control, bots: nat, risks: Seq<Risk>, i: nat, typed: Seq<char>, key: Key)
    requires
        c.pending == Some(PendingView::Danger(i, typed)),
    ensures
        (step(c, bots, risks, key).1 is Run) <==> (key == Key::Enter && typed == token()),
        (step(c, bots, risks, key).1 is Run) ==> step(c, bots, risks, key).1 == Effect::Run(i as usize),
{
}

/// The state after a run of inputs.
pub open spec fn feed(c: Control, bots: nat, risks: Seq<Risk>, keys: Seq<Key>) -> Control
    decreases keys.len(),
{
    if keys.len() == 0 {
        c
    } else {
        feed(step(c, bots, risks, keys[0]).0, bots, risks, keys.drop_first())
    }
}

/// Typing characters into a pending danger confirmation never makes the
/// typed text longer than the token, and once it is as long as the token
/// further characters leave it as it is.
pub proof fn lemma_typed_stays_bounded(c: Control, bots: nat, risks: Seq<Risk>, i: nat, typed: Seq<char>, keys: Seq<Key>)
    requires
        c.pending == Some(PendingView::Danger(i, typed)),
        typed.len() <= token().len(),
        forall|k: int| 0 <= k < keys.len() ==> #[trigger] keys[k] is Char,
    ensures
        feed(c, bots, risks, keys).pending matches Some(PendingView::Danger(j, t)) && j == i
            && t.len() <= token().len()
            && (typed.len() == token().len() ==> t == typed),
    decreases keys.len(),
{
    if keys.len() > 0 {
        let ch = keys[0]->Char_0;
        let c2 = step(c, bots, risks, keys[0]).0;
        assert(c2.pending == Some(PendingView::Danger(i, typed_after(typed, ch))));
        assert forall|k: int| 0 <= k < keys.drop_first().len() implies #[trigger] keys.drop_first()[k] is Char by {
            assert(keys[k + 1] is Char);
        }
        lemma_typed_stays_bounded(c2, bots, risks, i, typed_after(typed, ch), keys.drop_first());
    }
}

/// The action cursor wraps: "next" from the last action goes to the first,
/// "previous" from the first goes to the last.
pub proof fn lemma_action_cursor_wraps(c: Control, bots: nat, risks: Seq<Risk>)
    requires
        c.pending is None,
        c.tab == Tab::Scripts,
        risks.len() > 0,
    ensures
        c.selected_action == risks.len() - 1 ==> step(c, bots, risks, Key::Down).0.selected_action == 0,
        c.selected_action == 0 ==> step(c, bots, risks, Key::Up).0.selected_action == risks.len() - 1,
{
    assert(next_index((risks.len() - 1) as nat, risks.len()) == 0) by (nonlinear_arith)
        requires risks.len() > 0;
    assert(prev_index(0, risks.len()) == risks.len() - 1);
}

} // verus!
