//! What holds of every run of the subcommands.

use vstd::prelude::*;

use crate::error::ErrorView;
use crate::path::restore_target;
use super::uninstall::{finishing, lemma_next_saved, restoring_daemon};
use super::build_program;

use super::{
    answers, finish_err, initial_progress, progress_wf, run, run_states, state_before, ActionView, BuildCommand, Command, Commands,
    EventView, InitCommand, ProgressView, Stage, SwitchCommand, UninstallCommand,
};

verus! {

/// The shape of a guarded part of a command: the stages in `guarded` are
/// left only for the end, are entered only from a stage `s` with an answer
/// `e` such that `gate(s, e)`, and `gated` actions are asked for only from
/// them or on entering them; every step into a stage `s` asks for an action
/// `a` with `asked(s, a)`.
pub open spec fn gated_shape<C: Command>(
    c: &C,
    guarded: spec_fn(Stage) -> bool,
    gated: spec_fn(ActionView) -> bool,
    gate: spec_fn(Stage, EventView) -> bool,
    asked: spec_fn(Stage, ActionView) -> bool,
) -> bool {
    &&& forall|q: ProgressView, e: EventView|
        c.uses(q.stage) && answers(q.stage, e) && guarded(q.stage) ==> (#[trigger] c.next(q, e)).0.stage
            == Stage::Finished || guarded(c.next(q, e).0.stage)
    &&& forall|q: ProgressView, e: EventView|
        c.uses(q.stage) && answers(q.stage, e) && !guarded(q.stage) && guarded(
            (#[trigger] c.next(q, e)).0.stage,
        ) ==> gate(q.stage, e)
    &&& forall|q: ProgressView, e: EventView|
        c.uses(q.stage) && answers(q.stage, e) && !guarded(q.stage) && gated((#[trigger] c.next(q, e)).1)
            ==> guarded(c.next(q, e).0.stage)
    &&& forall|q: ProgressView, e: EventView|
        c.uses(q.stage) && answers(q.stage, e) ==> asked((#[trigger] c.next(q, e)).0.stage, c.next(q, e).1)
}

/// Whether the pair of `a` and its reply `e` lets a run into the guarded
/// part: `a` is what a step into some stage `s` requests, and `e` leads
/// from `s` into that part.
pub open spec fn opened(
    gate: spec_fn(Stage, EventView) -> bool,
    asked: spec_fn(Stage, ActionView) -> bool,
    a: ActionView,
    e: EventView,
) -> bool {
    exists|s: Stage| #[trigger] gate(s, e) && asked(s, a)
}

pub proof fn lemma_run_len<C: Command>(c: &C, p: ProgressView, es: Seq<EventView>)
    ensures
        run(c, p, es).len() <= es.len(),
    decreases es.len(),
{
    if es.len() == 0 || p.stage == Stage::Finished || !c.uses(p.stage) || !answers(p.stage, es[0]) {
    } else {
        lemma_run_len(c, c.next(p, es[0]).0, es.drop_first());
    }
}

proof fn lemma_gated_run<C: Command>(
    c: &C,
    guarded: spec_fn(Stage) -> bool,
    gated: spec_fn(ActionView) -> bool,
    gate: spec_fn(Stage, EventView) -> bool,
    asked: spec_fn(Stage, ActionView) -> bool,
    p: ProgressView,
    es: Seq<EventView>,
)
    requires
        gated_shape(c, guarded, gated, gate, asked),
    ensures
        forall|k: int|
            0 <= k < run(c, p, es).len() && gated(#[trigger] run(c, p, es)[k]) ==> guarded(p.stage) || gate(
                p.stage,
                es[0],
            ) || exists|j: int| 0 <= j < k && opened(gate, asked, run(c, p, es)[j], es[j + 1]),
    decreases es.len(),
{
    let r = run(c, p, es);
    if es.len() == 0 || p.stage == Stage::Finished || !c.uses(p.stage) || !answers(p.stage, es[0]) {
    } else {
        let (q, a) = c.next(p, es[0]);
        let tail = es.drop_first();
        lemma_gated_run(c, guarded, gated, gate, asked, q, tail);
        let rq = run(c, q, tail);
        lemma_run_len(c, q, tail);
        assert(r == seq![a] + rq);
        assert forall|k: int| 0 <= k < r.len() && gated(#[trigger] r[k]) implies guarded(p.stage) || gate(
            p.stage,
            es[0],
        ) || exists|j: int| 0 <= j < k && opened(gate, asked, r[j], es[j + 1]) by {
            if k == 0 {
                assert(r[0] == a);
            } else {
                assert(r[k] == rq[k - 1]);
                assert(gated(rq[k - 1]));
                if guarded(q.stage) {
                } else if gate(q.stage, tail[0]) {
                    assert(asked(q.stage, a));
                    assert(r[0] == a);
                    assert(es[1] == tail[0]);
                    assert(opened(gate, asked, r[0], es[1]));
                } else {
                    let j2 = choose|j: int| 0 <= j < k - 1 && opened(gate, asked, rq[j], tail[j + 1]);
                    assert(r[j2 + 1] == rq[j2]);
                    assert(es[j2 + 2] == tail[j2 + 1]);
                }
            }
        }
    }
}

/// [`lemma_gated_run`] for a gate of one stage `g`, passed with answer `ge`
/// to an action that satisfies `ga`, on a run from the start.
proof fn lemma_single_gate_run<C: Command>(
    c: &C,
    guarded: spec_fn(Stage) -> bool,
    gated: spec_fn(ActionView) -> bool,
    g: Stage,
    ge: EventView,
    ga: spec_fn(ActionView) -> bool,
    gate: spec_fn(Stage, EventView) -> bool,
    asked: spec_fn(Stage, ActionView) -> bool,
    es: Seq<EventView>,
)
    requires
        gated_shape(c, guarded, gated, gate, asked),
        forall|s: Stage, e: EventView| #[trigger] gate(s, e) <==> s == g && e == ge,
        forall|s: Stage, a: ActionView| #[trigger] asked(s, a) <==> (s == g ==> ga(a)),
        !guarded(Stage::Start),
        g != Stage::Start,
    ensures
        forall|k: int|
            0 <= k < run(c, initial_progress(), es).len() && gated(#[trigger] run(c, initial_progress(), es)[k])
                ==> exists|j: int| 0 <= j < k && ga(run(c, initial_progress(), es)[j]) && es[j + 1] == ge,
{
    let r = run(c, initial_progress(), es);
    lemma_gated_run(c, guarded, gated, gate, asked, initial_progress(), es);
    assert forall|k: int| 0 <= k < r.len() && gated(#[trigger] r[k]) implies exists|j: int|
        0 <= j < k && ga(r[j]) && es[j + 1] == ge by {
        assert(!gate(Stage::Start, es[0]));
        let j = choose|j: int| 0 <= j < k && opened(gate, asked, r[j], es[j + 1]);
        let st = choose|st: Stage| #[trigger] gate(st, es[j + 1]) && asked(st, r[j]);
        assert(ga(r[j]) && es[j + 1] == ge);
    }
}

/// The stages of `switch` after the confirmation prompt.
pub open spec fn switch_committed(s: Stage) -> bool {
    s == Stage::ProfileAnnounced || s == Stage::Profile || s == Stage::ActivateAnnounced || s == Stage::Activate
}

/// The actions that change the running system.
pub open spec fn changes_system(a: ActionView) -> bool {
    a is Profile || a is ActivateUser || a is Activate
}

/// Switching asks first: unless `--no-confirm` is given, a run of `switch`
/// points the profile at the new system or activates it only after the
/// confirmation prompt was answered yes.
pub proof fn switch_asks_before_switching(s: &SwitchCommand, es: Seq<EventView>)
    requires
        !s.no_confirm,
    ensures
        forall|k: int|
            0 <= k < run(s, initial_progress(), es).len() && changes_system(
                #[trigger] run(s, initial_progress(), es)[k],
            ) ==> exists|j: int|
                0 <= j < k && run(s, initial_progress(), es)[j] is Confirm && es[j + 1] == EventView::Flag(true),
{
    let g = |st: Stage| switch_committed(st);
    let ga = |a: ActionView| changes_system(a);
    let gc = |a: ActionView| a is Confirm;
    let gate = |st: Stage, e: EventView| st == Stage::Confirm && e == EventView::Flag(true);
    let asked = |st: Stage, a: ActionView| st == Stage::Confirm ==> gc(a);
    assert(gated_shape(s, g, ga, gate, asked));
    lemma_single_gate_run(s, g, ga, Stage::Confirm, EventView::Flag(true), gc, gate, asked, es);
}

/// The stages of `switch` and `init` once the profile was set.
pub open spec fn profile_set(s: Stage) -> bool {
    s == Stage::ActivateAnnounced || s == Stage::Activate
}

/// Switching activates only what the profile points at: in a run of
/// `switch`, an activation comes only after the profile was set (a profile
/// action answered as done).
pub proof fn switch_activates_after_profile(s: &SwitchCommand, es: Seq<EventView>)
    ensures
        forall|k: int|
            0 <= k < run(s, initial_progress(), es).len() && (#[trigger] run(s, initial_progress(), es)[k]) is Activate
                ==> exists|j: int|
                0 <= j < k && run(s, initial_progress(), es)[j] is Profile && es[j + 1] == EventView::Done,
{
    let g = |st: Stage| profile_set(st);
    let ga = |a: ActionView| a is Activate;
    let gp = |a: ActionView| a is Profile;
    let gate = |st: Stage, e: EventView| st == Stage::Profile && e == EventView::Done;
    let asked = |st: Stage, a: ActionView| st == Stage::Profile ==> gp(a);
    assert(gated_shape(s, g, ga, gate, asked));
    lemma_single_gate_run(s, g, ga, Stage::Profile, EventView::Done, gp, gate, asked, es);
}

/// `init` likewise activates the bootstrap system only after the system
/// profile was set to it.
pub proof fn init_activates_after_profile(c: &InitCommand, es: Seq<EventView>)
    ensures
        forall|k: int|
            0 <= k < run(c, initial_progress(), es).len() && (#[trigger] run(c, initial_progress(), es)[k]) is Activate
                ==> exists|j: int|
                0 <= j < k && run(c, initial_progress(), es)[j] is Profile && es[j + 1] == EventView::Done,
{
    let g = |st: Stage| profile_set(st);
    let ga = |a: ActionView| a is Activate;
    let gp = |a: ActionView| a is Profile;
    let gate = |st: Stage, e: EventView| st == Stage::Profile && e == EventView::Done;
    let asked = |st: Stage, a: ActionView| st == Stage::Profile ==> gp(a);
    assert(gated_shape(c, g, ga, gate, asked));
    lemma_single_gate_run(c, g, ga, Stage::Profile, EventView::Done, gp, gate, asked, es);
}

/// The stages of `init` from the writing of the bootstrap flake on.
pub open spec fn init_committed(s: Stage) -> bool {
    match s {
        Stage::Bootstrap | Stage::Hostname | Stage::BuildAnnounced | Stage::Build | Stage::BuildReported
        | Stage::ProfileAnnounced | Stage::Profile | Stage::ActivateAnnounced | Stage::Activate => true,
        _ => false,
    }
}

/// The actions of `init` that write the bootstrap flake or change the system.
pub open spec fn init_changes(a: ActionView) -> bool {
    a is Bootstrap || changes_system(a)
}

/// `init` asks before reinitializing: unless `--no-confirm` is given, a run
/// of `init` writes the bootstrap flake, sets the profile or activates only
/// after the check for an existing installation found none, or after the
/// confirmation prompt was answered yes.
pub proof fn init_asks_before_reinitializing(c: &InitCommand, es: Seq<EventView>)
    requires
        !c.no_confirm,
    ensures
        forall|k: int|
            0 <= k < run(c, initial_progress(), es).len() && init_changes(#[trigger] run(c, initial_progress(), es)[k])
                ==> exists|j: int|
                0 <= j < k && ((run(c, initial_progress(), es)[j] is PathExists && es[j + 1] == EventView::Flag(false))
                    || (run(c, initial_progress(), es)[j] is Confirm && es[j + 1] == EventView::Flag(true))),
{
    let r = run(c, initial_progress(), es);
    let g = |st: Stage| init_committed(st);
    let ga = |a: ActionView| init_changes(a);
    let gate = |st: Stage, e: EventView|
        (st == Stage::InstalledCheck && e == EventView::Flag(false)) || (st == Stage::Confirm && e
            == EventView::Flag(true));
    let asked = |st: Stage, a: ActionView|
        (st == Stage::InstalledCheck ==> a is PathExists) && (st == Stage::Confirm ==> a is Confirm);
    assert(gated_shape(c, g, ga, gate, asked));
    lemma_gated_run(c, g, ga, gate, asked, initial_progress(), es);
    assert forall|k: int| 0 <= k < r.len() && init_changes(#[trigger] r[k]) implies exists|j: int|
        0 <= j < k && ((r[j] is PathExists && es[j + 1] == EventView::Flag(false)) || (r[j] is Confirm && es[j + 1]
            == EventView::Flag(true))) by {
        assert(ga(r[k]));
        assert(!gate(Stage::Start, es[0]));
        let j = choose|j: int| 0 <= j < k && opened(gate, asked, r[j], es[j + 1]);
        let st = choose|st: Stage| #[trigger] gate(st, es[j + 1]) && asked(st, r[j]);
        assert((r[j] is PathExists && es[j + 1] == EventView::Flag(false)) || (r[j] is Confirm && es[j + 1]
            == EventView::Flag(true)));
    }
}

/// The stages of `uninstall` once the user agreed to go on.
pub open spec fn uninstall_committed(s: Stage) -> bool {
    match s {
        Stage::BlankLine | Stage::ProfileAnnounced | Stage::Profile | Stage::ActivateUserAnnounced
        | Stage::ActivateUser | Stage::ActivateAnnounced | Stage::Activate | Stage::ResidualAnnounced
        | Stage::RemoveApps | Stage::RemoveStatic | Stage::EtcAnnounced | Stage::ListEtc
        | Stage::EtcTargetCheck | Stage::EtcRename | Stage::EtcRenamedReported
        | Stage::StoreCheck | Stage::DaemonCheck | Stage::DaemonAnnounced | Stage::RemovePlist
        | Stage::Unload | Stage::CopyDaemon | Stage::LoadDaemon | Stage::DaemonMissingReported
        | Stage::CaCheck | Stage::CaAnnounced | Stage::LinkCa | Stage::CaMissingReported | Stage::SymlinkAnnounced
        | Stage::SymlinkCheck | Stage::RemoveSymlink | Stage::DoneReported => true,
        _ => false,
    }
}

/// The stages of `uninstall` once the uninstaller is in the profile.
pub open spec fn uninstall_profiled(s: Stage) -> bool {
    uninstall_committed(s) && s != Stage::BlankLine && s != Stage::ProfileAnnounced && s != Stage::Profile
}

/// The actions of `uninstall` that change the system.
pub open spec fn uninstall_changes(a: ActionView) -> bool {
    ||| changes_system(a)
    ||| a is RemoveFile
    ||| a is Rename
    ||| a is Run
    ||| a is CopyFile
    ||| a is Symlink
}

/// Uninstalling asks first: unless `--no-confirm` is given, a run of
/// `uninstall` changes nothing on the system (profile, activation, removed
/// or restored files) before the confirmation prompt was answered yes.
pub proof fn uninstall_asks_before_changing(c: &UninstallCommand, es: Seq<EventView>)
    requires
        !c.no_confirm,
    ensures
        forall|k: int|
            0 <= k < run(c, initial_progress(), es).len() && uninstall_changes(
                #[trigger] run(c, initial_progress(), es)[k],
            ) ==> exists|j: int|
                0 <= j < k && run(c, initial_progress(), es)[j] is Confirm && es[j + 1] == EventView::Flag(true),
{
    let g = |st: Stage| uninstall_committed(st);
    let ga = |a: ActionView| uninstall_changes(a);
    let gc = |a: ActionView| a is Confirm;
    let gate = |st: Stage, e: EventView| st == Stage::Confirm && e == EventView::Flag(true);
    let asked = |st: Stage, a: ActionView| st == Stage::Confirm ==> gc(a);
    assert(gated_shape(c, g, ga, gate, asked));
    lemma_single_gate_run(c, g, ga, Stage::Confirm, EventView::Flag(true), gc, gate, asked, es);
}

/// `uninstall` runs the uninstaller's activations only after the system
/// profile was set to the uninstaller.
pub proof fn uninstall_activates_after_profile(c: &UninstallCommand, es: Seq<EventView>)
    ensures
        forall|k: int|
            0 <= k < run(c, initial_progress(), es).len() && changes_system(#[trigger] run(c, initial_progress(), es)[k])
                && !(run(c, initial_progress(), es)[k] is Profile) ==> exists|j: int|
                0 <= j < k && run(c, initial_progress(), es)[j] is Profile && es[j + 1] == EventView::Done,
{
    let g = |st: Stage| uninstall_profiled(st);
    let ga = |a: ActionView| a is ActivateUser || a is Activate;
    let gp = |a: ActionView| a is Profile;
    let gate = |st: Stage, e: EventView| st == Stage::Profile && e == EventView::Done;
    let asked = |st: Stage, a: ActionView| st == Stage::Profile ==> gp(a);
    assert(gated_shape(c, g, ga, gate, asked));
    lemma_single_gate_run(c, g, ga, Stage::Profile, EventView::Done, gp, gate, asked, es);
    assert forall|k: int|
        0 <= k < run(c, initial_progress(), es).len() && changes_system(#[trigger] run(c, initial_progress(), es)[k])
            && !(run(c, initial_progress(), es)[k] is Profile) implies exists|j: int|
            0 <= j < k && run(c, initial_progress(), es)[j] is Profile && es[j + 1] == EventView::Done by {
        assert(ga(run(c, initial_progress(), es)[k]));
    }
}

/// Step `k` of a run: from the progress before it, the answer `es[k]`
/// leads to the progress after it and the action it asks for.
pub proof fn lemma_run_step<C: Command>(c: &C, p: ProgressView, es: Seq<EventView>, k: int)
    requires
        0 <= k < run(c, p, es).len(),
    ensures
        run_states(c, p, es).len() == run(c, p, es).len(),
        c.uses(state_before(c, p, es, k).stage),
        answers(state_before(c, p, es, k).stage, es[k]),
        state_before(c, p, es, k).stage != Stage::Finished,
        c.next(state_before(c, p, es, k), es[k]) == (run_states(c, p, es)[k], run(c, p, es)[k]),
    decreases es.len(),
{
    lemma_run_states_len(c, p, es);
    lemma_run_len(c, p, es);
    let q = c.next(p, es[0]).0;
    let tail = es.drop_first();
    if k > 0 {
        lemma_run_step(c, q, tail, k - 1);
        lemma_run_states_len(c, q, tail);
        assert(run(c, p, es)[k] == run(c, q, tail)[k - 1]);
        assert(run_states(c, p, es)[k] == run_states(c, q, tail)[k - 1]);
        assert(es[k] == tail[k - 1]);
        if k > 1 {
            assert(run_states(c, p, es)[k - 1] == run_states(c, q, tail)[k - 2]);
        }
    }
}

proof fn lemma_run_states_len<C: Command>(c: &C, p: ProgressView, es: Seq<EventView>)
    ensures
        run_states(c, p, es).len() == run(c, p, es).len(),
    decreases es.len(),
{
    if es.len() == 0 || p.stage == Stage::Finished || !c.uses(p.stage) || !answers(p.stage, es[0]) {
    } else {
        lemma_run_states_len(c, c.next(p, es[0]).0, es.drop_first());
    }
}

/// Along a run of `uninstall` the progress stays consistent, and the files
/// it goes through are those it started with or those of a listing answered
/// earlier.
proof fn lemma_uninstall_states(c: &UninstallCommand, p: ProgressView, es: Seq<EventView>, k: int)
    requires
        progress_wf(p),
        0 <= k <= run(c, p, es).len(),
    ensures
        progress_wf(state_before(c, p, es, k)),
        state_before(c, p, es, k).files == p.files || exists|i: int|
            0 <= i < k && es[i] == EventView::List(state_before(c, p, es, k).files),
    decreases k,
{
    if k > 0 {
        lemma_uninstall_states(c, p, es, k - 1);
        lemma_run_step(c, p, es, k - 1);
        let b = state_before(c, p, es, k - 1);
        uninstall_step(c, b, es[k - 1]);
        assert(state_before(c, p, es, k) == run_states(c, p, es)[k - 1]);
        if b.stage == Stage::ListEtc {
            assert(es[k - 1] == EventView::List(state_before(c, p, es, k).files));
        }
    }
}

/// `uninstall` puts back only what nix-darwin moved aside, and only where
/// nothing is in the way: each rename it asks for moves a file of the
/// listing of `/etc` whose name ends in `.before-nix-darwin` to the same
/// name without that ending, right after the check that nothing is there
/// was answered no.
pub proof fn uninstall_renames_only_saved_files(c: &UninstallCommand, es: Seq<EventView>)
    ensures
        forall|k: int|
            0 <= k < run(c, initial_progress(), es).len() && (#[trigger] run(c, initial_progress(), es)[k]) is Rename
                ==> {
                let from = run(c, initial_progress(), es)[k]->Rename_0;
                let to = run(c, initial_progress(), es)[k]->Rename_1;
                &&& restore_target(from) == Some(to)
                &&& 1 <= k
                &&& run(c, initial_progress(), es)[k - 1] == ActionView::PathExists(to)
                &&& es[k] == EventView::Flag(false)
                &&& exists|i: int| 0 <= i < k && es[i] is List && es[i]->List_0.contains(from)
            },
{
    let p = initial_progress();
    let r = run(c, p, es);
    assert forall|k: int| 0 <= k < r.len() && (#[trigger] r[k]) is Rename implies {
        let from = r[k]->Rename_0;
        let to = r[k]->Rename_1;
        &&& restore_target(from) == Some(to)
        &&& 1 <= k
        &&& r[k - 1] == ActionView::PathExists(to)
        &&& es[k] == EventView::Flag(false)
        &&& exists|i: int| 0 <= i < k && es[i] is List && es[i]->List_0.contains(from)
    } by {
        lemma_run_step(c, p, es, k);
        lemma_uninstall_states(c, p, es, k);
        let b = state_before(c, p, es, k);
        assert(b.stage == Stage::EtcTargetCheck);
        assert(k >= 1);
        lemma_run_step(c, p, es, k - 1);
        let a = state_before(c, p, es, k - 1);
        lemma_uninstall_states(c, p, es, k - 1);
        if a.stage == Stage::ListEtc {
            lemma_next_saved(es[k - 1]->List_0, 0);
        } else {
            lemma_next_saved(a.files, a.index + 1);
        }
        assert(r[k - 1] == ActionView::PathExists(restore_target(b.files[b.index])->0));
        assert(b.files.len() > 0);
        let i = choose|i: int| 0 <= i < k && es[i] == EventView::List(b.files);
        assert(es[i]->List_0[b.index] == r[k]->Rename_0);
    }
}

/// The stages of `uninstall` once `/etc` was listed.
pub open spec fn past_listing(s: Stage) -> bool {
    match s {
        Stage::EtcTargetCheck | Stage::EtcRename | Stage::EtcRenamedReported => true,
        _ => restoring_daemon(s) || finishing(s),
    }
}

/// How many of the listed files `uninstall` has gone through at progress
/// `p`: the original name of each of them that nix-darwin moved aside has
/// been checked.
pub open spec fn files_checked(p: ProgressView) -> int {
    match p.stage {
        Stage::EtcTargetCheck | Stage::EtcRename | Stage::EtcRenamedReported => p.index + 1,
        _ => if past_listing(p.stage) {
            p.files.len() as int
        } else {
            0
        },
    }
}

/// Along a run of `uninstall` from the start: once `/etc` was listed, the
/// files gone through are those of a listing answered earlier, and the
/// original name of each saved file among those gone through so far has
/// been checked.
proof fn lemma_uninstall_checks(c: &UninstallCommand, es: Seq<EventView>, k: int)
    requires
        0 <= k <= run(c, initial_progress(), es).len(),
    ensures
        ({
            let b = state_before(c, initial_progress(), es, k);
            &&& past_listing(b.stage) ==> exists|i: int| 0 <= i < k && es[i] == EventView::List(b.files)
            &&& forall|y: int|
                0 <= y < files_checked(b) && restore_target(#[trigger] b.files[y]) is Some ==> exists|j: int|
                    0 <= j < k && run(c, initial_progress(), es)[j] == ActionView::PathExists(
                        restore_target(b.files[y])->0,
                    )
        }),
    decreases k,
{
    let p = initial_progress();
    let r = run(c, p, es);
    if k > 0 {
        lemma_uninstall_checks(c, es, k - 1);
        lemma_uninstall_states(c, p, es, k - 1);
        lemma_run_step(c, p, es, k - 1);
        let b = state_before(c, p, es, k - 1);
        let e = es[k - 1];
        let q = state_before(c, p, es, k);
        assert(q == run_states(c, p, es)[k - 1]);
        uninstall_step(c, b, e);
        if b.stage == Stage::ListEtc {
            lemma_next_saved(e->List_0, 0);
            assert(es[k - 1] == EventView::List(q.files));
        } else if b.stage == Stage::EtcTargetCheck || b.stage == Stage::EtcRenamedReported {
            lemma_next_saved(b.files, b.index + 1);
        }
        assert forall|y: int|
            0 <= y < files_checked(q) && restore_target(#[trigger] q.files[y]) is Some implies exists|j: int|
                0 <= j < k && r[j] == ActionView::PathExists(restore_target(q.files[y])->0) by {
            if 0 <= y < files_checked(b) && b.files == q.files {
                let j = choose|j: int|
                    0 <= j < k - 1 && r[j] == ActionView::PathExists(restore_target(b.files[y])->0);
            } else {
                assert(r[k - 1] == ActionView::PathExists(restore_target(q.files[y])->0));
            }
        }
    }
}

/// `uninstall` goes through every file it listed: when it moves past `/etc`
/// (asks whether `/nix/store` is a directory), the original name of each
/// listed file whose name ends in `.before-nix-darwin` has been checked (and
/// the file was put back where that name was free, see
/// [`uninstall_renames_only_saved_files`]).
pub proof fn uninstall_checks_every_saved_file(c: &UninstallCommand, es: Seq<EventView>, m: int)
    requires
        0 <= m < run(c, initial_progress(), es).len(),
        run(c, initial_progress(), es)[m] == ActionView::PathIsDir("/nix/store"@),
    ensures
        exists|i: int|
            0 <= i <= m && #[trigger] es[i] is List && forall|f: Seq<char>|
                es[i]->List_0.contains(f) && restore_target(f) is Some ==> exists|j: int|
                    0 <= j < m && run(c, initial_progress(), es)[j] == ActionView::PathExists(restore_target(f)->0),
{
    let p = initial_progress();
    let r = run(c, p, es);
    lemma_run_step(c, p, es, m);
    lemma_uninstall_states(c, p, es, m);
    let b = state_before(c, p, es, m);
    let q = state_before(c, p, es, m + 1);
    assert(q == run_states(c, p, es)[m]);
    uninstall_step(c, b, es[m]);
    assert(q.stage == Stage::StoreCheck);
    lemma_uninstall_checks(c, es, m + 1);
    let i = choose|i: int| 0 <= i < m + 1 && es[i] == EventView::List(q.files);
    if b.stage == Stage::ListEtc {
        lemma_next_saved(es[m]->List_0, 0);
    } else if b.stage == Stage::EtcTargetCheck || b.stage == Stage::EtcRenamedReported {
        lemma_next_saved(b.files, b.index + 1);
    }
    lemma_run_len(c, p, es);
    assert forall|f: Seq<char>| es[i]->List_0.contains(f) && restore_target(f) is Some implies exists|j: int|
        0 <= j < m && r[j] == ActionView::PathExists(restore_target(f)->0) by {
        let y = choose|y: int| 0 <= y < q.files.len() && q.files[y] == f;
        let j = choose|j: int| 0 <= j < m + 1 && r[j] == ActionView::PathExists(restore_target(q.files[y])->0);
        assert(j != m);
    }
}

/// A failed action ends the command with its error: whatever the command
/// and wherever it is, the answer `Failed(e)` to an action that can fail
/// makes it finish with `e` (the one exception is `build`, which turns a
/// failed host name lookup into its own error, see
/// [`build_reports_missing_attr`]).
pub proof fn failures_end_the_command(c: &Commands, p: ProgressView, e: ErrorView)
    requires
        c.uses(p.stage),
        answers(p.stage, EventView::Failed(e)),
        !(c is Build && p.stage == Stage::Hostname),
    ensures
        c.next(p, EventView::Failed(e)) == (p.at(Stage::Finished), finish_err(e)),
{
}

/// `build` without `--attr` reports a failed host name lookup as the lack
/// of an attribute.
pub proof fn build_reports_missing_attr(c: &BuildCommand, p: ProgressView, e: ErrorView)
    requires
        p.stage == Stage::Hostname,
    ensures
        c.next(p, EventView::Failed(e)) == (
            p.at(Stage::Finished),
            finish_err(ErrorView::Message(super::build_cmd::no_attr_message())),
        ),
{
}

/// How many files the listings among the answers `es` hold in all.
pub open spec fn listed_len(es: Seq<EventView>) -> int
    decreases es.len(),
{
    if es.len() == 0 {
        0
    } else {
        (match es[0] {
            EventView::List(v) => v.len() as int,
            _ => 0,
        }) + listed_len(es.drop_first())
    }
}

/// How far along a command is at progress `p`: the place of its stage in
/// the order the command goes through them. While `uninstall` goes through
/// the files under `/etc`, each file takes three places.
pub open spec fn stage_rank(c: &Commands, p: ProgressView) -> int {
    match c {
        Commands::Switch(_) => match p.stage {
            Stage::Start => 0,
            Stage::NomLookup => 1,
            Stage::DefaultFlake => 2,
            Stage::Hostname => 3,
            Stage::BuildAnnounced => 4,
            Stage::Build => 5,
            Stage::BuildReported => 6,
            Stage::NvdLookup => 7,
            Stage::Diff => 8,
            Stage::Confirm => 9,
            Stage::ProfileAnnounced => 10,
            Stage::Profile => 11,
            Stage::ActivateAnnounced => 12,
            Stage::Activate => 13,
            _ => 14,
        },
        Commands::Build(_) => match p.stage {
            Stage::Start => 0,
            Stage::NomLookup => 1,
            Stage::DefaultFlake => 2,
            Stage::Hostname => 3,
            Stage::BuildAnnounced => 4,
            Stage::Build => 5,
            Stage::BuildReported => 6,
            _ => 7,
        },
        Commands::Init(_) => match p.stage {
            Stage::Start => 0,
            Stage::NixLookup => 1,
            Stage::NixMissingReported => 2,
            Stage::InstalledCheck => 3,
            Stage::InstalledReported => 4,
            Stage::Confirm => 5,
            Stage::Bootstrap => 6,
            Stage::Hostname => 7,
            Stage::BuildAnnounced => 8,
            Stage::Build => 9,
            Stage::BuildReported => 10,
            Stage::ProfileAnnounced => 11,
            Stage::Profile => 12,
            Stage::ActivateAnnounced => 13,
            Stage::Activate => 14,
            _ => 15,
        },
        Commands::Uninstall(_) => {
            let n: int = 3 * (p.files.len() as int);
            let i: int = 3 * p.index;
            match p.stage {
                Stage::Start => 0,
                Stage::Root => 1,
                Stage::BuildAnnounced => 2,
                Stage::Build => 3,
                Stage::BuildReported => 4,
                Stage::Confirm => 5,
                Stage::BlankLine => 6,
                Stage::ProfileAnnounced => 7,
                Stage::Profile => 8,
                Stage::ActivateUserAnnounced => 9,
                Stage::ActivateUser => 10,
                Stage::ActivateAnnounced => 11,
                Stage::Activate => 12,
                Stage::ResidualAnnounced => 13,
                Stage::RemoveApps => 14,
                Stage::RemoveStatic => 15,
                Stage::EtcAnnounced => 16,
                Stage::ListEtc => 17,
                Stage::EtcTargetCheck => i + 18,
                Stage::EtcRename => i + 19,
                Stage::EtcRenamedReported => i + 20,
                Stage::StoreCheck => n + 18,
                Stage::DaemonCheck => n + 19,
                Stage::DaemonAnnounced => n + 20,
                Stage::RemovePlist => n + 21,
                Stage::Unload => n + 22,
                Stage::CopyDaemon => n + 23,
                Stage::LoadDaemon => n + 24,
                Stage::DaemonMissingReported => n + 25,
                Stage::CaCheck => n + 26,
                Stage::CaAnnounced => n + 27,
                Stage::LinkCa => n + 28,
                Stage::CaMissingReported => n + 29,
                Stage::SymlinkAnnounced => n + 30,
                Stage::SymlinkCheck => n + 31,
                Stage::RemoveSymlink => n + 32,
                Stage::DoneReported => n + 33,
                _ => n + 34,
            }
        },
        Commands::WipeHistory(_) => match p.stage {
            Stage::Start => 0,
            Stage::WipeDefault => 1,
            Stage::WipeSystem => 2,
            Stage::WipeRoot => 3,
            Stage::StateHome => 4,
            Stage::WipeUser => 5,
            Stage::WipeHomeManager => 6,
            _ => 7,
        },
        Commands::Completions(_) => match p.stage {
            Stage::Start => 0,
            Stage::Completions => 1,
            _ => 2,
        },
    }
}

/// How many actions a command asks for at most, besides the three that
/// `uninstall` may ask for about each file under `/etc`.
pub open spec fn step_bound(c: &Commands) -> int {
    match c {
        Commands::Switch(_) => 14,
        Commands::Build(_) => 7,
        Commands::Init(_) => 15,
        Commands::Uninstall(_) => 34,
        Commands::WipeHistory(_) => 7,
        Commands::Completions(_) => 2,
    }
}

/// How many actions a command asks for at most from progress `p` on, when
/// listings among the answers `es` hold `listed` files.
pub open spec fn budget(c: &Commands, p: ProgressView, listed: int) -> int {
    match c {
        Commands::Uninstall(_) => step_bound(c) + 3 * (p.files.len() + listed),
        _ => step_bound(c),
    }
}

proof fn uninstall_step(c: &UninstallCommand, p: ProgressView, e: EventView)
    requires
        c.uses(p.stage),
        answers(p.stage, e),
        progress_wf(p),
    ensures
        ({
            let q = c.next(p, e).0;
            &&& q.stage == Stage::Finished || (c.uses(q.stage) && stage_rank(&Commands::Uninstall(*c), q)
                > stage_rank(&Commands::Uninstall(*c), p) && progress_wf(q))
            &&& if p.stage == Stage::ListEtc {
                q.files == e->List_0
            } else {
                q.files == p.files
            }
        }),
        0 <= stage_rank(&Commands::Uninstall(*c), p) < budget(&Commands::Uninstall(*c), p, 0),
{
    if p.stage == Stage::ListEtc {
        lemma_next_saved(e->List_0, 0);
    } else if p.stage == Stage::EtcTargetCheck || p.stage == Stage::EtcRenamedReported {
        lemma_next_saved(p.files, p.index + 1);
    }
}

/// Every step moves forward: it ends the command or goes further along, to
/// a stage that the command uses; only the listing of `/etc` changes the
/// files being gone through.
pub proof fn steps_move_forward(c: &Commands, p: ProgressView, e: EventView)
    requires
        c.uses(p.stage),
        answers(p.stage, e),
        progress_wf(p),
    ensures
        ({
            let q = c.next(p, e).0;
            &&& q.stage == Stage::Finished || (c.uses(q.stage) && stage_rank(c, q) > stage_rank(c, p)
                && progress_wf(q))
            &&& c is Uninstall ==> if p.stage == Stage::ListEtc {
                q.files == e->List_0
            } else {
                q.files == p.files
            }
        }),
        0 <= stage_rank(c, p) < budget(c, p, 0),
{
    match c {
        Commands::Uninstall(u) => uninstall_step(u, p, e),
        _ => {},
    }
}

proof fn lemma_listed_len(es: Seq<EventView>)
    requires
        es.len() > 0,
    ensures
        listed_len(es) == listed_len(es.drop_first()) + match es[0] {
            EventView::List(v) => v.len() as int,
            _ => 0,
        },
        listed_len(es.drop_first()) >= 0,
    decreases es.len(),
{
    if es.len() > 1 {
        lemma_listed_len(es.drop_first());
    }
}

proof fn lemma_run_bounded(c: &Commands, p: ProgressView, es: Seq<EventView>)
    requires
        c.uses(p.stage),
        progress_wf(p),
    ensures
        run(c, p, es).len() <= budget(c, p, listed_len(es)) - stage_rank(c, p),
    decreases es.len(),
{
    if es.len() == 0 || p.stage == Stage::Finished || !c.uses(p.stage) || !answers(p.stage, es[0]) {
        steps_move_forward_bound(c, p, es);
    } else {
        let q = c.next(p, es[0]).0;
        let tail = es.drop_first();
        steps_move_forward(c, p, es[0]);
        lemma_listed_len(es);
        if q.stage == Stage::Finished {
            assert(run(c, q, tail).len() == 0);
        } else {
            lemma_run_bounded(c, q, tail);
        }
    }
}

proof fn steps_move_forward_bound(c: &Commands, p: ProgressView, es: Seq<EventView>)
    requires
        c.uses(p.stage),
        progress_wf(p),
    ensures
        0 <= stage_rank(c, p) < budget(c, p, listed_len(es)),
    decreases es.len(),
{
    match c {
        Commands::Uninstall(_) => {
            if es.len() > 0 {
                lemma_listed_len(es);
            }
        },
        _ => {},
    }
}

/// Every command ends: however its actions are answered, it asks for at
/// most [`step_bound`] actions, and `uninstall` for at most three more for
/// each file that the listing of `/etc` gave it.
pub proof fn every_run_ends(c: &Commands, es: Seq<EventView>)
    ensures
        run(c, initial_progress(), es).len() <= step_bound(c) + if c is Uninstall {
            3 * listed_len(es)
        } else {
            0
        },
{
    assert(c.uses(Stage::Start));
    lemma_run_bounded(c, initial_progress(), es);
}

/// A run goes on past step `k` when there is an answer for the next step
/// that the stage reached waits for.
proof fn lemma_run_continues<C: Command>(c: &C, p: ProgressView, es: Seq<EventView>, k: int)
    requires
        0 <= k < run(c, p, es).len(),
        k + 1 < es.len(),
        run_states(c, p, es)[k].stage != Stage::Finished,
        c.uses(run_states(c, p, es)[k].stage),
        answers(run_states(c, p, es)[k].stage, es[k + 1]),
    ensures
        k + 1 < run(c, p, es).len(),
    decreases es.len(),
{
    lemma_run_states_len(c, p, es);
    let q = c.next(p, es[0]).0;
    let tail = es.drop_first();
    lemma_run_states_len(c, q, tail);
    if k == 0 {
        assert(run_states(c, p, es)[0] == q);
        assert(tail[0] == es[1]);
    } else {
        assert(run_states(c, p, es)[k] == run_states(c, q, tail)[k - 1]);
        assert(es[k + 1] == tail[k]);
        lemma_run_continues(c, q, tail, k - 1);
    }
}

/// The stages of `build` and `switch` once the flake is known.
pub open spec fn flake_known(s: Stage) -> bool {
    s == Stage::Hostname || s == Stage::BuildAnnounced || s == Stage::Build || s == Stage::BuildReported
}

/// Along a run of `build` from the start, what the user gave is what the
/// progress holds: the build program of `--nom`, the flake of `--flake` and
/// the attribute of `--attr`.
proof fn lemma_build_states(c: &BuildCommand, es: Seq<EventView>, k: int)
    requires
        0 <= k <= run(c, initial_progress(), es).len(),
    ensures
        ({
            let b = state_before(c, initial_progress(), es, k);
            &&& c.nom is Some && b.stage != Stage::Start ==> b.program == build_program(c.nom->0)
            &&& c.flake is Some && flake_known(b.stage) ==> b.flake_url == c.flake->0@
            &&& c.attr is Some && flake_known(b.stage) && b.stage != Stage::Hostname ==> b.flake_attr
                == c.attr->0@
            &&& c.attr is Some ==> b.stage != Stage::Hostname
            &&& c.flake is Some ==> b.stage != Stage::DefaultFlake
            &&& b.stage != Stage::NomLookup || c.nom is None
        }),
    decreases k,
{
    if k > 0 {
        lemma_build_states(c, es, k - 1);
        lemma_run_step(c, initial_progress(), es, k - 1);
        assert(state_before(c, initial_progress(), es, k) == run_states(c, initial_progress(), es)[k - 1]);
    }
}

/// `build` builds what it was asked to: every build it requests passes on
/// the extra Nix flags given after `--`, in order, links the result as
/// `./result`, and uses the program of `--nom`, the flake of `--flake` and
/// the attribute of `--attr` when those are given.
pub proof fn build_requests_what_was_given(c: &BuildCommand, es: Seq<EventView>)
    ensures
        forall|k: int|
            0 <= k < run(c, initial_progress(), es).len() && (#[trigger] run(c, initial_progress(), es)[k]) is Build
                ==> {
                let req = run(c, initial_progress(), es)[k]->Build_0;
                &&& req.extra_build_flags == c.extra_build_flags.deep_view()
                &&& req.out_link
                &&& c.nom is Some ==> req.program == build_program(c.nom->0)
                &&& c.flake is Some ==> req.flake_url == c.flake->0@
                &&& c.attr is Some ==> req.flake_attr == c.attr->0@
            },
{
    let r = run(c, initial_progress(), es);
    assert forall|k: int| 0 <= k < r.len() && (#[trigger] r[k]) is Build implies {
        let req = r[k]->Build_0;
        &&& req.extra_build_flags == c.extra_build_flags.deep_view()
        &&& req.out_link
        &&& c.nom is Some ==> req.program == build_program(c.nom->0)
        &&& c.flake is Some ==> req.flake_url == c.flake->0@
        &&& c.attr is Some ==> req.flake_attr == c.attr->0@
    } by {
        lemma_run_step(c, initial_progress(), es, k);
        lemma_build_states(c, es, k);
    }
}

/// `switch` likewise passes on the extra Nix flags given after `--`, in
/// order, to every build it requests, and makes no `./result` link.
pub proof fn switch_passes_build_flags(c: &SwitchCommand, es: Seq<EventView>)
    ensures
        forall|k: int|
            0 <= k < run(c, initial_progress(), es).len() && (#[trigger] run(c, initial_progress(), es)[k]) is Build
                ==> run(c, initial_progress(), es)[k]->Build_0.extra_build_flags == c.extra_build_flags.deep_view()
                && !run(c, initial_progress(), es)[k]->Build_0.out_link,
{
    let r = run(c, initial_progress(), es);
    assert forall|k: int| 0 <= k < r.len() && (#[trigger] r[k]) is Build implies r[k]->Build_0.extra_build_flags
        == c.extra_build_flags.deep_view() && !r[k]->Build_0.out_link by {
        lemma_run_step(c, initial_progress(), es, k);
    }
}

/// Step `k` of a run of `switch` asks for a diff only when `--nvd true` was
/// given or the step before asked whether `nvd` is on `PATH` and was told
/// yes.
proof fn lemma_switch_diff_step(c: &SwitchCommand, es: Seq<EventView>, k: int)
    requires
        0 <= k < run(c, initial_progress(), es).len(),
        run(c, initial_progress(), es)[k] is Diff,
    ensures
        c.nvd == Some(true) || (1 <= k && run(c, initial_progress(), es)[k - 1] == ActionView::Which("nvd"@)
            && es[k] == EventView::Flag(true)),
{
    let p = initial_progress();
    lemma_run_step(c, p, es, k);
    let b = state_before(c, p, es, k);
    if b.stage == Stage::NvdLookup {
        lemma_run_step(c, p, es, k - 1);
    }
}

/// When step `k` of a run of `switch` asks whether `nvd` is on `PATH` and
/// is told no, the next step goes on to switching.
proof fn lemma_switch_no_nvd_step(c: &SwitchCommand, es: Seq<EventView>, k: int)
    requires
        0 <= k < run(c, initial_progress(), es).len(),
        run(c, initial_progress(), es)[k] == ActionView::Which("nvd"@),
        k + 1 < es.len(),
        es[k + 1] == EventView::Flag(false),
    ensures
        k + 1 < run(c, initial_progress(), es).len(),
        run(c, initial_progress(), es)[k + 1] == if c.no_confirm {
            super::log_plain(crate::util::log::Level::Info, "configuring profile"@)
        } else {
            ActionView::Confirm("switch to configuration?"@, false)
        },
{
    let p = initial_progress();
    reveal_strlit("nvd");
    reveal_strlit("nom");
    assert("nvd"@[1] != "nom"@[1]);
    assert("nvd"@ != "nom"@);
    lemma_run_step(c, p, es, k);
    let b = state_before(c, p, es, k);
    if b.stage != Stage::BuildReported {
        assert(c.next(b, es[k]).1 != ActionView::Which("nvd"@));
    }
    assert(run_states(c, p, es)[k].stage == Stage::NvdLookup);
    lemma_run_continues(c, p, es, k);
    lemma_run_step(c, p, es, k + 1);
}

/// `switch` diffs only with nvd available: a diff is asked for only when
/// `--nvd true` was given or the lookup of `nvd` on `PATH` right before it
/// found it; when the lookup does not find it, the next action is the
/// confirmation prompt (or, with `--no-confirm`, the line that announces the
/// profile).
pub proof fn switch_diffs_only_with_nvd(c: &SwitchCommand, es: Seq<EventView>)
    ensures
        forall|k: int|
            0 <= k < run(c, initial_progress(), es).len() && (#[trigger] run(c, initial_progress(), es)[k]) is Diff
                ==> c.nvd == Some(true) || (1 <= k && run(c, initial_progress(), es)[k - 1] == ActionView::Which(
                "nvd"@,
            ) && es[k] == EventView::Flag(true)),
        forall|k: int|
            0 <= k < run(c, initial_progress(), es).len() && (#[trigger] run(c, initial_progress(), es)[k])
                == ActionView::Which("nvd"@) && k + 1 < es.len() && es[k + 1] == EventView::Flag(false) ==> k + 1 < run(
                c,
                initial_progress(),
                es,
            ).len() && run(c, initial_progress(), es)[k + 1] == if c.no_confirm {
                super::log_plain(crate::util::log::Level::Info, "configuring profile"@)
            } else {
                ActionView::Confirm("switch to configuration?"@, false)
            },
{
    assert forall|k: int|
        0 <= k < run(c, initial_progress(), es).len() && (#[trigger] run(c, initial_progress(), es)[k]) is Diff
            implies c.nvd == Some(true) || (1 <= k && run(c, initial_progress(), es)[k - 1] == ActionView::Which(
            "nvd"@,
        ) && es[k] == EventView::Flag(true)) by {
        lemma_switch_diff_step(c, es, k);
    }
    assert forall|k: int|
        0 <= k < run(c, initial_progress(), es).len() && (#[trigger] run(c, initial_progress(), es)[k])
            == ActionView::Which("nvd"@) && k + 1 < es.len() && es[k + 1] == EventView::Flag(false) implies k + 1
            < run(c, initial_progress(), es).len() && run(c, initial_progress(), es)[k + 1] == if c.no_confirm {
        super::log_plain(crate::util::log::Level::Info, "configuring profile"@)
    } else {
        ActionView::Confirm("switch to configuration?"@, false)
    } by {
        lemma_switch_no_nvd_step(c, es, k);
    }
}

/// A yes to `init`'s question whether to reinitialize goes on with the
/// installation: the next action writes the bootstrap flake.
pub proof fn init_yes_goes_on(c: &InitCommand, es: Seq<EventView>, k: int)
    requires
        0 <= k < run(c, initial_progress(), es).len(),
        run(c, initial_progress(), es)[k] is Confirm,
        k + 1 < es.len(),
        es[k + 1] == EventView::Flag(true),
    ensures
        k + 1 < run(c, initial_progress(), es).len(),
        run(c, initial_progress(), es)[k + 1] == ActionView::Bootstrap,
{
    let p = initial_progress();
    lemma_run_step(c, p, es, k);
    assert(run_states(c, p, es)[k].stage == Stage::Confirm);
    lemma_run_continues(c, p, es, k);
    lemma_run_step(c, p, es, k + 1);
}

/// A yes to `uninstall`'s question goes on with the uninstallation: the next
/// action is the blank line before the uninstaller is put in the profile.
pub proof fn uninstall_yes_goes_on(c: &UninstallCommand, es: Seq<EventView>, k: int)
    requires
        0 <= k < run(c, initial_progress(), es).len(),
        run(c, initial_progress(), es)[k] is Confirm,
        k + 1 < es.len(),
        es[k + 1] == EventView::Flag(true),
    ensures
        k + 1 < run(c, initial_progress(), es).len(),
        run(c, initial_progress(), es)[k + 1] == ActionView::BlankLine,
{
    let p = initial_progress();
    lemma_run_step(c, p, es, k);
    assert(run_states(c, p, es)[k].stage == Stage::Confirm);
    lemma_run_continues(c, p, es, k);
    lemma_run_step(c, p, es, k + 1);
}

/// The stages of `switch` after its build.
pub open spec fn switch_built(s: Stage) -> bool {
    s == Stage::BuildReported || s == Stage::NvdLookup || s == Stage::Diff || s == Stage::Confirm || s == Stage::ProfileAnnounced || s == Stage::Profile || s == Stage::ActivateAnnounced || s == Stage::Activate
}

/// Along a run of `switch` from the start, the system it holds once built is
/// the answer to its build.
proof fn lemma_switch_out(c: &SwitchCommand, es: Seq<EventView>, k: int)
    requires
        0 <= k <= run(c, initial_progress(), es).len(),
    ensures
        ({
            let b = state_before(c, initial_progress(), es, k);
            &&& b.stage == Stage::Build ==> 1 <= k && run(c, initial_progress(), es)[k - 1] is Build
            &&& switch_built(b.stage) ==> exists|j: int|
                0 <= j && j + 1 < k && run(c, initial_progress(), es)[j] is Build && es[j + 1]
                    == EventView::Text(b.out)
        }),
    decreases k,
{
    let p = initial_progress();
    if k > 0 {
        lemma_switch_out(c, es, k - 1);
        lemma_run_step(c, p, es, k - 1);
        let a = state_before(c, p, es, k - 1);
        let b = state_before(c, p, es, k);
        assert(b == run_states(c, p, es)[k - 1]);
        if switch_built(b.stage) && a.stage == Stage::Build {
            assert(es[k - 1] == EventView::Text(b.out));
            assert(run(c, p, es)[k - 2] is Build);
        }
    }
}

/// `switch` points the profile given by `--profile` at the system it built,
/// and activates that system: the store path in each profile and activation
/// request is the answer to an earlier build.
pub proof fn switch_sets_what_it_built(c: &SwitchCommand, es: Seq<EventView>)
    ensures
        forall|k: int|
            0 <= k < run(c, initial_progress(), es).len() && (#[trigger] run(c, initial_progress(), es)[k]) is Profile
                ==> run(c, initial_progress(), es)[k]->Profile_0 == c.profile@ && exists|j: int|
                0 <= j < k && run(c, initial_progress(), es)[j] is Build && es[j + 1] == EventView::Text(
                    run(c, initial_progress(), es)[k]->Profile_1,
                ),
        forall|k: int|
            0 <= k < run(c, initial_progress(), es).len() && (#[trigger] run(c, initial_progress(), es)[k]) is Activate
                ==> exists|j: int|
                0 <= j < k && run(c, initial_progress(), es)[j] is Build && es[j + 1] == EventView::Text(
                    run(c, initial_progress(), es)[k]->Activate_0,
                ),
{
    let p = initial_progress();
    let r = run(c, p, es);
    assert forall|k: int| 0 <= k < r.len() && (#[trigger] r[k]) is Profile implies r[k]->Profile_0 == c.profile@
        && exists|j: int| 0 <= j < k && r[j] is Build && es[j + 1] == EventView::Text(r[k]->Profile_1) by {
        lemma_run_step(c, p, es, k);
        lemma_switch_out(c, es, k);
    }
    assert forall|k: int| 0 <= k < r.len() && (#[trigger] r[k]) is Activate implies exists|j: int|
        0 <= j < k && r[j] is Build && es[j + 1] == EventView::Text(r[k]->Activate_0) by {
        lemma_run_step(c, p, es, k);
        lemma_switch_out(c, es, k);
    }
}

/// The stages of `init` after its build.
pub open spec fn init_built(s: Stage) -> bool {
    s == Stage::BuildReported || s == Stage::ProfileAnnounced || s == Stage::Profile || s == Stage::ActivateAnnounced || s == Stage::Activate
}

/// Along a run of `init` from the start, the system it holds once built is
/// the answer to its build.
proof fn lemma_init_out(c: &InitCommand, es: Seq<EventView>, k: int)
    requires
        0 <= k <= run(c, initial_progress(), es).len(),
    ensures
        ({
            let b = state_before(c, initial_progress(), es, k);
            &&& b.stage == Stage::Build ==> 1 <= k && run(c, initial_progress(), es)[k - 1] is Build
            &&& init_built(b.stage) ==> exists|j: int|
                0 <= j && j + 1 < k && run(c, initial_progress(), es)[j] is Build && es[j + 1]
                    == EventView::Text(b.out)
        }),
    decreases k,
{
    let p = initial_progress();
    if k > 0 {
        lemma_init_out(c, es, k - 1);
        lemma_run_step(c, p, es, k - 1);
        let a = state_before(c, p, es, k - 1);
        let b = state_before(c, p, es, k);
        assert(b == run_states(c, p, es)[k - 1]);
        if init_built(b.stage) && a.stage == Stage::Build {
            assert(es[k - 1] == EventView::Text(b.out));
            assert(run(c, p, es)[k - 2] is Build);
        }
    }
}

/// `init` points the system profile at the bootstrap system it built, and
/// activates that system.
pub proof fn init_sets_what_it_built(c: &InitCommand, es: Seq<EventView>)
    ensures
        forall|k: int|
            0 <= k < run(c, initial_progress(), es).len() && (#[trigger] run(c, initial_progress(), es)[k]) is Profile
                ==> run(c, initial_progress(), es)[k]->Profile_0 == super::init::system_profile() && exists|j: int|
                0 <= j < k && run(c, initial_progress(), es)[j] is Build && es[j + 1] == EventView::Text(
                    run(c, initial_progress(), es)[k]->Profile_1,
                ),
        forall|k: int|
            0 <= k < run(c, initial_progress(), es).len() && (#[trigger] run(c, initial_progress(), es)[k]) is Activate
                ==> exists|j: int|
                0 <= j < k && run(c, initial_progress(), es)[j] is Build && es[j + 1] == EventView::Text(
                    run(c, initial_progress(), es)[k]->Activate_0,
                ),
{
    let p = initial_progress();
    let r = run(c, p, es);
    assert forall|k: int| 0 <= k < r.len() && (#[trigger] r[k]) is Profile implies r[k]->Profile_0 == super::init::system_profile()
        && exists|j: int| 0 <= j < k && r[j] is Build && es[j + 1] == EventView::Text(r[k]->Profile_1) by {
        lemma_run_step(c, p, es, k);
        lemma_init_out(c, es, k);
    }
    assert forall|k: int| 0 <= k < r.len() && (#[trigger] r[k]) is Activate implies exists|j: int|
        0 <= j < k && r[j] is Build && es[j + 1] == EventView::Text(r[k]->Activate_0) by {
        lemma_run_step(c, p, es, k);
        lemma_init_out(c, es, k);
    }
}

/// The stages of `uninstall` after the build of the uninstaller.
pub open spec fn uninstall_built(s: Stage) -> bool {
    s != Stage::Start && s != Stage::Root && s != Stage::BuildAnnounced && s != Stage::Build && s
        != Stage::Finished
}

/// Along a run of `uninstall` from the start, the system it holds once the
/// uninstaller is built is the answer to that build.
proof fn lemma_uninstall_out(c: &UninstallCommand, es: Seq<EventView>, k: int)
    requires
        0 <= k <= run(c, initial_progress(), es).len(),
    ensures
        ({
            let b = state_before(c, initial_progress(), es, k);
            &&& b.stage == Stage::Build ==> 1 <= k && run(c, initial_progress(), es)[k - 1] is BuildUninstallSystem
            &&& uninstall_built(b.stage) ==> exists|j: int|
                0 <= j && j + 1 < k && run(c, initial_progress(), es)[j] is BuildUninstallSystem && es[j + 1]
                    == EventView::Text(b.out)
        }),
    decreases k,
{
    let p = initial_progress();
    if k > 0 {
        lemma_uninstall_out(c, es, k - 1);
        lemma_run_step(c, p, es, k - 1);
        lemma_uninstall_states(c, p, es, k - 1);
        let a = state_before(c, p, es, k - 1);
        let b = state_before(c, p, es, k);
        assert(b == run_states(c, p, es)[k - 1]);
        uninstall_step(c, a, es[k - 1]);
        if uninstall_built(b.stage) && a.stage == Stage::Build {
            assert(es[k - 1] == EventView::Text(b.out));
            assert(run(c, p, es)[k - 2] is BuildUninstallSystem);
        }
    }
}

/// `uninstall` points the system profile at the uninstaller it built, and
/// runs that system's activations: the store path in each profile and
/// activation request is the answer to the build of the uninstaller.
pub proof fn uninstall_sets_what_it_built(c: &UninstallCommand, es: Seq<EventView>)
    ensures
        forall|k: int|
            0 <= k < run(c, initial_progress(), es).len() && (#[trigger] run(c, initial_progress(), es)[k]) is Profile
                ==> run(c, initial_progress(), es)[k]->Profile_0 == "/nix/var/nix/profiles/system"@ && exists|j: int|
                0 <= j < k && run(c, initial_progress(), es)[j] is BuildUninstallSystem && es[j + 1]
                    == EventView::Text(run(c, initial_progress(), es)[k]->Profile_1),
        forall|k: int|
            0 <= k < run(c, initial_progress(), es).len() && (#[trigger] run(c, initial_progress(), es)[k]) is Activate
                ==> exists|j: int|
                0 <= j < k && run(c, initial_progress(), es)[j] is BuildUninstallSystem && es[j + 1]
                    == EventView::Text(run(c, initial_progress(), es)[k]->Activate_0),
        forall|k: int|
            0 <= k < run(c, initial_progress(), es).len() && (#[trigger] run(c, initial_progress(), es)[k])
                is ActivateUser ==> exists|j: int|
                0 <= j < k && run(c, initial_progress(), es)[j] is BuildUninstallSystem && es[j + 1]
                    == EventView::Text(run(c, initial_progress(), es)[k]->ActivateUser_0),
{
    let p = initial_progress();
    let r = run(c, p, es);
    assert forall|k: int| 0 <= k < r.len() && (#[trigger] r[k]) is Profile implies r[k]->Profile_0
        == "/nix/var/nix/profiles/system"@ && exists|j: int|
        0 <= j < k && r[j] is BuildUninstallSystem && es[j + 1] == EventView::Text(r[k]->Profile_1) by {
        lemma_run_step(c, p, es, k);
        lemma_uninstall_out(c, es, k);
    }
    assert forall|k: int| 0 <= k < r.len() && (#[trigger] r[k]) is Activate implies exists|j: int|
        0 <= j < k && r[j] is BuildUninstallSystem && es[j + 1] == EventView::Text(r[k]->Activate_0) by {
        lemma_run_step(c, p, es, k);
        lemma_uninstall_out(c, es, k);
    }
    assert forall|k: int| 0 <= k < r.len() && (#[trigger] r[k]) is ActivateUser implies exists|j: int|
        0 <= j < k && r[j] is BuildUninstallSystem && es[j + 1] == EventView::Text(r[k]->ActivateUser_0) by {
        lemma_run_step(c, p, es, k);
        lemma_uninstall_out(c, es, k);
    }
}

} // verus!
