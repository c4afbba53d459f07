//! What holds of every run of the installer, whatever its surroundings answer.

use crate::catalog::applicable;
use crate::confirm::affirmative;
use crate::distro::distro_id;
use crate::effect::{graceful, EffectView, EventView, PromptView, VerdictView};
use crate::layout::{share_path, workspace_path};
use crate::plan::{chosen, distro_entry, entries_of, in_range};
use crate::workflow::{requirements, InstallerView, Phase};
use vstd::prelude::*;

verus! {

/// A run begins in a state that can be reached, and every accepted event
/// leads to one.
pub proof fn runs_stay_well_formed(s: InstallerView, event: EventView)
    requires
        s.well_formed(),
        s.accepts(event),
    ensures
        InstallerView::initial(s.catalog).well_formed(),
        s.after(event).well_formed(),
{
}

/// A run that is over waits for its exit and accepts no event; any other run
/// waits for something else.
pub proof fn runs_end_with_an_exit(s: InstallerView, event: EventView)
    ensures
        s.phase.is_final() <==> s.awaited() is Exit,
        s.phase.is_final() ==> !s.accepts(event),
{
}

/// The place of a phase in the workflow, counted from its end.
pub open spec fn stage(phase: Phase) -> nat {
    match phase {
        Phase::Locating => 24,
        Phase::ConfirmingReinstall => 23,
        Phase::Announcing => 22,
        Phase::Requiring(_) => 21,
        Phase::Congratulating => 20,
        Phase::ReadingRelease => 19,
        Phase::Introducing => 18,
        Phase::Searching => 17,
        Phase::ConfirmingContinuation | Phase::ConfirmingDistroModule => 16,
        Phase::Scanning => 15,
        Phase::Choosing => 14,
        Phase::ConfirmingPlan => 13,
        Phase::ReadingHome => 12,
        Phase::Removing => 11,
        Phase::CreatingWorkspace => 10,
        Phase::CreatingShare => 9,
        Phase::Cloning => 8,
        Phase::Moving => 7,
        Phase::Building => 6,
        Phase::ReadingSearchPath => 5,
        Phase::SettingSearchPath => 4,
        Phase::Appending => 3,
        Phase::Installing(_) | Phase::Reporting(_) => 2,
        _ => 0,
    }
}

/// How much is left to do within the stage that `s` is in: the requirements
/// still to check, the modules still to install or to report.
pub open spec fn backlog(s: InstallerView) -> nat {
    match s.phase {
        Phase::Requiring(i) => (requirements().len() - i) as nat,
        Phase::Installing(k) => (2 * (s.plan.modules.len() - k) + 1) as nat,
        Phase::Reporting(k) => (2 * (s.plan.modules.len() - k)) as nat,
        _ => 0,
    }
}

/// Every accepted event brings the run nearer to its end: it reaches a later
/// stage, or leaves less to do within the same one. So every run ends. This
/// is stated of plans that fit in memory, as every plan of a run does.
pub proof fn every_step_nears_the_end(s: InstallerView, event: EventView)
    requires
        s.well_formed(),
        s.plan.modules.len() <= usize::MAX,
        s.accepts(event),
    ensures
        stage(s.after(event).phase) < stage(s.phase) || (stage(s.after(event).phase) == stage(
            s.phase,
        ) && backlog(s.after(event)) < backlog(s)),
{
}

/// After the scan the user is offered the modules of the catalog of which a
/// command resolves, those and no others, in the order of the catalog.
pub proof fn scan_offers_the_applicable_modules(s: InstallerView, found: Seq<Seq<char>>)
    requires
        s.phase == Phase::Scanning,
    ensures
        s.accepts(EventView::Found(found)),
        s.after(EventView::Found(found)).awaited() == EffectView::Choose(
            entries_of(applicable(s.catalog, found)),
        ),
{
}

/// The plan lists the module for the distribution first, where the user
/// approved it, and after it the modules that the user chose, in the order
/// in which they were chosen.
pub proof fn plan_lists_the_distro_module_first(
    s: InstallerView,
    answer: Seq<char>,
    found: Seq<Seq<char>>,
    choices: Seq<usize>,
)
    requires
        s.well_formed(),
        s.phase == Phase::ConfirmingDistroModule,
        in_range(choices, applicable(s.catalog, found).len()),
    ensures
        ({
            let asked = s.after(EventView::Text(answer));
            let scanned = asked.after(EventView::Found(found));
            let planned = scanned.after(EventView::Chosen(choices));
            let picked = chosen(applicable(s.catalog, found), choices);
            &&& s.accepts(EventView::Text(answer))
            &&& asked.accepts(EventView::Found(found))
            &&& scanned.accepts(EventView::Chosen(choices))
            &&& planned.plan.modules == if affirmative(answer) {
                seq![distro_entry(s.distro)] + picked
            } else {
                picked
            }
            &&& planned.awaited() == EffectView::Ask(PromptView::Proceed(planned.plan.modules))
        }),
{
}

/// Where the user goes on without a module for the distribution, the plan
/// lists the modules that the user chose, in the order in which they were
/// chosen.
pub proof fn plan_lists_the_choices_in_order(
    s: InstallerView,
    answer: Seq<char>,
    found: Seq<Seq<char>>,
    choices: Seq<usize>,
)
    requires
        s.well_formed(),
        s.phase == Phase::ConfirmingContinuation,
        affirmative(answer),
        in_range(choices, applicable(s.catalog, found).len()),
    ensures
        s.after(EventView::Text(answer)).after(EventView::Found(found)).after(
            EventView::Chosen(choices),
        ).plan.modules == chosen(applicable(s.catalog, found), choices),
{
}

/// A requirement passes exactly when its command resolves. A command that
/// does not resolve ends the run with a verdict that names it: it is an
/// outcome like the other, not a failed effect.
pub proof fn missing_requirement_ends_the_run(s: InstallerView, i: usize, resolves: bool)
    requires
        s.well_formed(),
        s.phase == Phase::Requiring(i),
    ensures
        s.accepts(EventView::Resolved(resolves)),
        !resolves <==> s.after(EventView::Resolved(resolves)).awaited() == EffectView::Exit(
            VerdictView::MissingRequirement(requirements()[i as int]),
        ),
        resolves ==> !s.after(EventView::Resolved(resolves)).phase.is_final(),
{
}

/// A release file that names no distribution ends the run gracefully: the
/// run is over, and nothing was asked of the surroundings but to read.
pub proof fn undetected_distribution_ends_the_run(s: InstallerView, release: Seq<char>)
    requires
        s.phase == Phase::ReadingRelease,
        distro_id(release) is None,
    ensures
        s.accepts(EventView::Text(release)),
        s.after(EventView::Text(release)).awaited() == EffectView::Exit(
            VerdictView::NoDistribution,
        ),
        graceful(VerdictView::NoDistribution),
        s.after(EventView::Text(release)).phase.is_final(),
{
}

/// The plan changes only where the user is asked: consent to reinstalling
/// marks it as a reinstallation, and nothing else touches that mark; the
/// answers about modules add to it, and nothing else touches its modules.
pub proof fn the_plan_changes_only_when_asked(s: InstallerView, event: EventView)
    ensures
        s.phase != Phase::ConfirmingReinstall ==> s.after(event).plan.is_reinstallation
            == s.plan.is_reinstallation,
        s.phase == Phase::ConfirmingReinstall ==> (s.after(event).plan.is_reinstallation <==> {
            ||| s.plan.is_reinstallation
            ||| event matches EventView::Text(answer) && affirmative(answer)
        }),
        s.phase != Phase::ConfirmingDistroModule && s.phase != Phase::Choosing ==> s.after(
            event,
        ).plan.modules == s.plan.modules,
{
}

/// A reinstallation begins by removing the previous installation, and goes
/// on with the workspace whether or not the removal succeeded. A first
/// installation begins with the workspace.
pub proof fn reinstallation_removes_first(s: InstallerView, home: Seq<char>, removal: EventView)
    requires
        s.phase == Phase::ReadingHome,
        removal is Done || removal is Failed,
    ensures
        ({
            let begun = s.after(EventView::Text(home));
            &&& s.accepts(EventView::Text(home))
            &&& s.plan.is_reinstallation ==> {
                &&& begun.awaited() == EffectView::RemoveTree(share_path(home))
                &&& begun.accepts(removal)
                &&& begun.after(removal).awaited() == EffectView::CreateDirectories(
                    workspace_path(home),
                )
            }
            &&& !s.plan.is_reinstallation ==> begun.awaited() == EffectView::CreateDirectories(
                workspace_path(home),
            )
        }),
{
}

/// A module that cannot be installed is reported, and the run goes on as if
/// it had been installed: with the next module, or to its end.
pub proof fn module_failures_are_passed_over(s: InstallerView, k: usize, success: bool)
    requires
        s.well_formed(),
        s.phase == Phase::Installing(k),
    ensures
        s.accepts(EventView::Failed),
        s.after(EventView::Failed).phase == Phase::Reporting(k),
        s.after(EventView::Failed).accepts(EventView::Done),
        s.after(EventView::Failed).after(EventView::Done) == s.after(EventView::Exited(success)),
        s.after(EventView::Exited(success)) == s.installing_from(k + 1),
{
}

/// Whether the clone or the build reported success makes no difference to
/// what follows.
pub proof fn exit_statuses_are_not_looked_at(s: InstallerView)
    ensures
        s.after(EventView::Exited(true)) == s.after(EventView::Exited(false)),
{
}

} // verus!
