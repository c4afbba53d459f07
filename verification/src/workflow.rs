//! The installation workflow: the phases of a run, what a run waits for in
//! each, and where each outcome leads.
//!
//! This is the model that [`crate::installer::Installer`] implements. It is
//! written over views, so that it can be reasoned about; see [`crate::run`].

use crate::catalog::{applicable, detection_commands, ModuleView};
use crate::confirm::affirmative;
use crate::distro::{candidate_name, distro_id};
use crate::effect::{EffectView, EventView, NoticeView, PromptView, VerdictView};
use crate::layout::{
    checkout_path, extended_search_path, profile_entry, profile_path, share_path, source_path,
    workspace_path, REPOSITORY,
};
use crate::plan::{chosen, distro_entry, entries_of, in_range, InstallationView};
use vstd::prelude::*;

verus! {

/// The command by which an installed darling is recognised.
pub const DARLING: &'static str = "darling";

/// The commands that must be installed before darling can be, in the order
/// in which they are checked.
pub open spec fn requirements() -> Seq<Seq<char>> {
    seq!["git"@, "cargo"@]
}

/// Where a run stands: what it is waiting for, or how it ended.
#[derive(Debug, Clone, Copy, PartialEq, Eq, Structural)]
pub enum Phase {
    /// Finding out whether darling is installed already.
    Locating,
    /// Asking whether to install it again.
    ConfirmingReinstall,
    /// Announcing the check of the requirements.
    Announcing,
    /// Checking the requirement at the given position.
    Requiring(usize),
    /// Telling that every requirement is met.
    Congratulating,
    /// Reading the release file.
    ReadingRelease,
    /// Telling which distribution the host runs.
    Introducing,
    /// Searching the registry for the distribution's module.
    Searching,
    /// Asking whether to go on though the registry lists no such module.
    ConfirmingContinuation,
    /// Asking whether to install the distribution's module.
    ConfirmingDistroModule,
    /// Finding out which detection commands resolve.
    Scanning,
    /// Letting the user pick among the applicable modules.
    Choosing,
    /// Asking whether to carry out the plan.
    ConfirmingPlan,
    /// Reading the home directory.
    ReadingHome,
    /// Removing the previous installation.
    Removing,
    /// Creating the workspace.
    CreatingWorkspace,
    /// Creating the directory of the installation.
    CreatingShare,
    /// Cloning the repository.
    Cloning,
    /// Moving the clone to its place.
    Moving,
    /// Building darling.
    Building,
    /// Reading the search path.
    ReadingSearchPath,
    /// Extending the search path of this process.
    SettingSearchPath,
    /// Extending the shell profile.
    Appending,
    /// Installing the planned module at the given position.
    Installing(usize),
    /// Telling that the planned module at the given position failed.
    Reporting(usize),
    /// Over: everything was installed.
    Installed,
    /// Over: the release file names no distribution.
    Undetected,
    /// Over: the plan was not confirmed.
    Unconfirmed,
    /// Over: the user declined to install again.
    ReinstallDeclined,
    /// Over: the user declined to go on without a module for the distribution.
    ContinuationDeclined,
    /// Over: the requirement at the given position is missing.
    Lacking(usize),
    /// Over: something that the run depends on could not be done.
    Failed,
}

impl Phase {
    /// Whether the run is over in this phase.
    pub open spec fn is_final(self) -> bool {
        match self {
            Phase::Installed
            | Phase::Undetected
            | Phase::Unconfirmed
            | Phase::ReinstallDeclined
            | Phase::ContinuationDeclined
            | Phase::Lacking(_)
            | Phase::Failed => true,
            _ => false,
        }
    }

    /// Whether this phase comes before the user's answer on the first module
    /// that could be planned, the one for the distribution.
    pub open spec fn precedes_planning(self) -> bool {
        match self {
            Phase::Locating
            | Phase::ConfirmingReinstall
            | Phase::Announcing
            | Phase::Requiring(_)
            | Phase::Congratulating
            | Phase::ReadingRelease
            | Phase::Introducing
            | Phase::Searching
            | Phase::ConfirmingContinuation
            | Phase::ConfirmingDistroModule => true,
            _ => false,
        }
    }
}

/// The state of a run over plain sequences of characters.
pub struct InstallerView {
    /// Where the run stands.
    pub phase: Phase,
    /// What has been approved for installation so far.
    pub plan: InstallationView,
    /// The modules that darling knows.
    pub catalog: Seq<ModuleView>,
    /// Those of them that apply to the host; empty until the scan is over.
    pub applicable: Seq<ModuleView>,
    /// The distribution's identifier; empty until it is detected.
    pub distro: Seq<char>,
    /// The home directory; empty until it is read.
    pub home: Seq<char>,
    /// The search path; empty until it is read.
    pub search_path: Seq<char>,
}

impl InstallerView {
    /// The state in which a run over the given catalog begins.
    pub open spec fn initial(catalog: Seq<ModuleView>) -> InstallerView {
        InstallerView {
            phase: Phase::Locating,
            plan: InstallationView { modules: Seq::empty(), is_reinstallation: false },
            catalog,
            applicable: Seq::empty(),
            distro: Seq::empty(),
            home: Seq::empty(),
            search_path: Seq::empty(),
        }
    }

    /// What holds of every state that a run can reach: the positions that the
    /// phase holds point into the lists that they are positions of, and
    /// nothing is planned before the user has been asked about a module.
    pub open spec fn well_formed(self) -> bool {
        &&& match self.phase {
            Phase::Requiring(i) => i < requirements().len(),
            Phase::Lacking(i) => i < requirements().len(),
            Phase::Installing(k) => k < self.plan.modules.len(),
            Phase::Reporting(k) => k < self.plan.modules.len(),
            _ => true,
        }
        &&& self.phase.precedes_planning() ==> self.plan.modules.len() == 0
    }

    /// The same state in another phase.
    pub open spec fn at(self, phase: Phase) -> InstallerView {
        InstallerView { phase, ..self }
    }

    /// The phase in which the planned modules from position `k` on are
    /// installed: the installation of the one at `k`, or the end when none is
    /// left.
    pub open spec fn installing_from(self, k: int) -> InstallerView {
        if 0 <= k < self.plan.modules.len() {
            self.at(Phase::Installing(k as usize))
        } else {
            self.at(Phase::Installed)
        }
    }

    /// The effect that the run is waiting for.
    pub open spec fn awaited(self) -> EffectView {
        match self.phase {
            Phase::Locating => EffectView::Probe(DARLING@),
            Phase::ConfirmingReinstall => EffectView::Ask(PromptView::Reinstall),
            Phase::Announcing => EffectView::Say(NoticeView::CheckingRequirements),
            Phase::Requiring(i) => EffectView::Require(requirements()[i as int]),
            Phase::Congratulating => EffectView::Say(NoticeView::RequirementsMet),
            Phase::ReadingRelease => EffectView::ReadRelease,
            Phase::Introducing => EffectView::Say(NoticeView::Distribution(self.distro)),
            Phase::Searching => EffectView::Search(candidate_name(self.distro)),
            Phase::ConfirmingContinuation => EffectView::Ask(PromptView::Continue(self.distro)),
            Phase::ConfirmingDistroModule => EffectView::Ask(
                PromptView::InstallDistroModule(self.distro),
            ),
            Phase::Scanning => EffectView::Scan(detection_commands(self.catalog)),
            Phase::Choosing => EffectView::Choose(entries_of(self.applicable)),
            Phase::ConfirmingPlan => EffectView::Ask(PromptView::Proceed(self.plan.modules)),
            Phase::ReadingHome => EffectView::ReadHome,
            Phase::Removing => EffectView::RemoveTree(share_path(self.home)),
            Phase::CreatingWorkspace => EffectView::CreateDirectories(workspace_path(self.home)),
            Phase::CreatingShare => EffectView::CreateDirectories(share_path(self.home)),
            Phase::Cloning => EffectView::Clone {
                repository: REPOSITORY@,
                directory: workspace_path(self.home),
            },
            Phase::Moving => EffectView::Rename {
                from: checkout_path(self.home),
                to: source_path(self.home),
            },
            Phase::Building => EffectView::Build { directory: source_path(self.home) },
            Phase::ReadingSearchPath => EffectView::ReadSearchPath,
            Phase::SettingSearchPath => EffectView::SetSearchPath(
                extended_search_path(self.search_path, self.home),
            ),
            Phase::Appending => EffectView::Append {
                path: profile_path(self.home),
                text: profile_entry(self.home),
            },
            Phase::Installing(k) => EffectView::InstallModule {
                readable_name: self.plan.modules[k as int].0,
                name: self.plan.modules[k as int].1,
            },
            Phase::Reporting(k) => EffectView::Say(
                NoticeView::ModuleFailed(self.plan.modules[k as int].1),
            ),
            Phase::Installed => EffectView::Exit(VerdictView::Installed),
            Phase::Undetected => EffectView::Exit(VerdictView::NoDistribution),
            Phase::Unconfirmed => EffectView::Exit(VerdictView::NotConfirmed),
            Phase::ReinstallDeclined => EffectView::Exit(VerdictView::ReinstallDeclined),
            Phase::ContinuationDeclined => EffectView::Exit(VerdictView::ContinuationDeclined),
            Phase::Lacking(i) => EffectView::Exit(
                VerdictView::MissingRequirement(requirements()[i as int]),
            ),
            Phase::Failed => EffectView::Exit(VerdictView::Failed),
        }
    }

    /// Whether `event` can be what came of the awaited effect.
    pub open spec fn accepts(self, event: EventView) -> bool {
        match self.phase {
            Phase::Locating | Phase::Requiring(_) => event is Resolved,
            Phase::SettingSearchPath => event is Done,
            Phase::ConfirmingReinstall
            | Phase::ConfirmingContinuation
            | Phase::ConfirmingDistroModule
            | Phase::ConfirmingPlan
            | Phase::ReadingRelease
            | Phase::Searching
            | Phase::ReadingHome
            | Phase::ReadingSearchPath => event is Text || event is Failed,
            Phase::Scanning => event is Found,
            Phase::Choosing => event is Failed || (event matches EventView::Chosen(choices)
                && in_range(choices, self.applicable.len())),
            Phase::Announcing
            | Phase::Congratulating
            | Phase::Introducing
            | Phase::Reporting(_)
            | Phase::Removing
            | Phase::CreatingWorkspace
            | Phase::CreatingShare
            | Phase::Moving
            | Phase::Appending => event is Done || event is Failed,
            Phase::Cloning | Phase::Building | Phase::Installing(_) => event is Exited
                || event is Failed,
            Phase::Installed
            | Phase::Undetected
            | Phase::Unconfirmed
            | Phase::ReinstallDeclined
            | Phase::ContinuationDeclined
            | Phase::Lacking(_)
            | Phase::Failed => false,
        }
    }

    /// The same state with the plan marked as a reinstallation.
    pub open spec fn reinstalling(self) -> InstallerView {
        InstallerView { plan: InstallationView { is_reinstallation: true, ..self.plan }, ..self }
    }

    /// The same state with the given entries at the end of the plan.
    pub open spec fn planning(self, added: Seq<(Seq<char>, Seq<char>)>) -> InstallerView {
        InstallerView {
            plan: InstallationView { modules: self.plan.modules + added, ..self.plan },
            ..self
        }
    }

    /// Where a step leads that must succeed for the run to go on: to `phase`
    /// if it did, to the failed end if it did not.
    pub open spec fn proceeds(self, succeeded: bool, phase: Phase) -> InstallerView {
        if succeeded {
            self.at(phase)
        } else {
            self.at(Phase::Failed)
        }
    }

    /// Where a question leads: to `yes` if the answer consents, to `no` if it
    /// does not, and to the failed end if no answer could be read.
    pub open spec fn answered(
        self,
        event: EventView,
        yes: InstallerView,
        no: InstallerView,
    ) -> InstallerView {
        match event {
            EventView::Text(answer) => if affirmative(answer) {
                yes
            } else {
                no
            },
            _ => self.at(Phase::Failed),
        }
    }

    /// The state that follows when `event` came of the awaited effect.
    ///
    /// An effect that fails ends the run, with two exceptions: the removal of
    /// a previous installation, whose failure is passed over, and the
    /// installation of a module, whose failure is reported before the next
    /// module is installed. Whether a process reported success is not looked at.
    pub open spec fn after(self, event: EventView) -> InstallerView {
        match self.phase {
            Phase::Locating => if event == EventView::Resolved(true) {
                self.at(Phase::ConfirmingReinstall)
            } else {
                self.at(Phase::Announcing)
            },
            Phase::ConfirmingReinstall => self.answered(
                event,
                self.reinstalling().at(Phase::Announcing),
                self.at(Phase::ReinstallDeclined),
            ),
            Phase::Announcing => self.proceeds(event is Done, Phase::Requiring(0)),
            Phase::Requiring(i) => if event != EventView::Resolved(true) {
                self.at(Phase::Lacking(i))
            } else if i + 1 < requirements().len() {
                self.at(Phase::Requiring((i + 1) as usize))
            } else {
                self.at(Phase::Congratulating)
            },
            Phase::Congratulating => self.proceeds(event is Done, Phase::ReadingRelease),
            Phase::ReadingRelease => match event {
                EventView::Text(release) => match distro_id(release) {
                    Some(distro) => InstallerView { phase: Phase::Introducing, distro, ..self },
                    None => self.at(Phase::Undetected),
                },
                _ => self.at(Phase::Failed),
            },
            Phase::Introducing => self.proceeds(event is Done, Phase::Searching),
            Phase::Searching => match event {
                EventView::Text(output) => if output.len() > 0 {
                    self.at(Phase::ConfirmingDistroModule)
                } else {
                    self.at(Phase::ConfirmingContinuation)
                },
                _ => self.at(Phase::Failed),
            },
            Phase::ConfirmingContinuation => self.answered(
                event,
                self.at(Phase::Scanning),
                self.at(Phase::ContinuationDeclined),
            ),
            Phase::ConfirmingDistroModule => self.answered(
                event,
                self.planning(seq![distro_entry(self.distro)]).at(Phase::Scanning),
                self.at(Phase::Scanning),
            ),
            Phase::Scanning => match event {
                EventView::Found(found) => InstallerView {
                    phase: Phase::Choosing,
                    applicable: applicable(self.catalog, found),
                    ..self
                },
                _ => self.at(Phase::Failed),
            },
            Phase::Choosing => match event {
                EventView::Chosen(choices) => self.planning(chosen(self.applicable, choices)).at(
                    Phase::ConfirmingPlan,
                ),
                _ => self.at(Phase::Failed),
            },
            Phase::ConfirmingPlan => self.answered(
                event,
                self.at(Phase::ReadingHome),
                self.at(Phase::Unconfirmed),
            ),
            Phase::ReadingHome => match event {
                EventView::Text(home) => InstallerView {
                    phase: if self.plan.is_reinstallation {
                        Phase::Removing
                    } else {
                        Phase::CreatingWorkspace
                    },
                    home,
                    ..self
                },
                _ => self.at(Phase::Failed),
            },
            Phase::Removing => self.at(Phase::CreatingWorkspace),
            Phase::CreatingWorkspace => self.proceeds(event is Done, Phase::CreatingShare),
            Phase::CreatingShare => self.proceeds(event is Done, Phase::Cloning),
            Phase::Cloning => self.proceeds(event is Exited, Phase::Moving),
            Phase::Moving => self.proceeds(event is Done, Phase::Building),
            Phase::Building => self.proceeds(event is Exited, Phase::ReadingSearchPath),
            Phase::ReadingSearchPath => match event {
                EventView::Text(search_path) => InstallerView {
                    phase: Phase::SettingSearchPath,
                    search_path,
                    ..self
                },
                _ => self.at(Phase::Failed),
            },
            Phase::SettingSearchPath => self.at(Phase::Appending),
            Phase::Appending => if event is Done {
                self.installing_from(0)
            } else {
                self.at(Phase::Failed)
            },
            Phase::Installing(k) => if event is Exited {
                self.installing_from(k + 1)
            } else {
                self.at(Phase::Reporting(k))
            },
            Phase::Reporting(k) => if event is Done {
                self.installing_from(k + 1)
            } else {
                self.at(Phase::Failed)
            },
            Phase::Installed
            | Phase::Undetected
            | Phase::Unconfirmed
            | Phase::ReinstallDeclined
            | Phase::ContinuationDeclined
            | Phase::Lacking(_)
            | Phase::Failed => self,
        }
    }
}

} // verus!
