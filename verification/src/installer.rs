//! A run of the installer, driven from outside.
//!
//! An [`Installer`] is always waiting for one effect, [`Installer::pending`].
//! Once the effect was carried out, [`Installer::advance`] takes what came of
//! it and moves on. The run is over when the pending effect is an exit.

use crate::catalog::{
    applicable_modules, catalog, commands_of, known_modules, texts, views, Module, ModuleView,
};
use crate::confirm::user_confirmed;
use crate::distro::{candidate, detect, is_listed};
use crate::effect::{Effect, Event, Notice, Prompt, Verdict};
use crate::layout::{
    checkout, extend_search_path, profile, profile_addition, share_directory, source_directory,
    workspace, REPOSITORY,
};
use crate::plan::{chosen, copy_entries, distro_entry, in_range, offer, Installation};
use crate::workflow::{requirements, InstallerView, Phase, DARLING};
use vstd::prelude::*;
use vstd::string::StringExecFns;

verus! {

/// The commands that must be installed before darling can be.
pub fn required_commands() -> (commands: Vec<String>)
    ensures
        texts(commands@) == requirements(),
{
    let mut commands: Vec<String> = Vec::new();
    commands.push(String::from_str("git"));
    commands.push(String::from_str("cargo"));
    commands
}

/// The required command at position `i`.
fn requirement(i: usize) -> (command: String)
    requires
        i < requirements().len(),
    ensures
        command@ == requirements()[i as int],
{
    let commands = required_commands();
    commands[i].clone()
}

/// Whether every index in `choices` is below `count`.
fn all_below(choices: &Vec<usize>, count: usize) -> (all: bool)
    ensures
        all == in_range(choices@, count as nat),
{
    let mut k: usize = 0;
    while k < choices.len()
        invariant
            k <= choices.len(),
            forall|j: int| 0 <= j < k ==> choices@[j] < count,
        decreases choices.len() - k,
    {
        if choices[k] >= count {
            return false;
        }
        k = k + 1;
    }
    true
}

/// A run of the installer.
#[derive(Debug)]
pub struct Installer {
    phase: Phase,
    plan: Installation,
    catalog: Vec<Module>,
    applicable: Vec<Module>,
    distro: String,
    home: String,
    search_path: String,
}

impl View for Installer {
    type V = InstallerView;

    closed spec fn view(&self) -> InstallerView {
        InstallerView {
            phase: self.phase,
            plan: self.plan@,
            catalog: views(self.catalog@),
            applicable: views(self.applicable@),
            distro: self.distro@,
            home: self.home@,
            search_path: self.search_path@,
        }
    }
}

impl Installer {
    /// Every run is in a state that a run can reach.
    #[verifier::type_invariant]
    spec fn sound(&self) -> bool {
        self@.well_formed()
    }

    /// Begins a run over the modules that darling ships integrations for.
    pub fn new() -> (installer: Self)
        ensures
            installer@ == InstallerView::initial(known_modules()),
    {
        Self::with_catalog(catalog())
    }

    /// Begins a run over the given catalog of modules.
    pub fn with_catalog(catalog: Vec<Module>) -> (installer: Self)
        ensures
            installer@ == InstallerView::initial(views(catalog@)),
    {
        let plan = Installation::blank();
        let applicable: Vec<Module> = Vec::new();
        assert(views(applicable@) =~= Seq::<ModuleView>::empty());
        Installer {
            phase: Phase::Locating,
            plan,
            catalog,
            applicable,
            distro: String::new(),
            home: String::new(),
            search_path: String::new(),
        }
    }

    /// Where the run stands.
    pub fn phase(&self) -> (phase: Phase)
        ensures
            phase == self@.phase,
    {
        self.phase
    }

    /// What has been approved for installation so far.
    pub fn plan(&self) -> (plan: &Installation)
        ensures
            plan@ == self@.plan,
    {
        &self.plan
    }

    /// The effect that the run is waiting for. Once the run is over, it is
    /// the exit with the verdict.
    pub fn pending(&self) -> (effect: Effect)
        ensures
            effect@ == self@.awaited(),
    {
        proof {
            use_type_invariant(self);
        }
        match self.phase {
            Phase::Locating => Effect::Probe(String::from_str(DARLING)),
            Phase::ConfirmingReinstall => Effect::Ask(Prompt::Reinstall),
            Phase::Announcing => Effect::Say(Notice::CheckingRequirements),
            Phase::Requiring(i) => Effect::Require(requirement(i)),
            Phase::Congratulating => Effect::Say(Notice::RequirementsMet),
            Phase::ReadingRelease => Effect::ReadRelease,
            Phase::Introducing => Effect::Say(Notice::Distribution(self.distro.clone())),
            Phase::Searching => Effect::Search(candidate(self.distro.as_str())),
            Phase::ConfirmingContinuation => Effect::Ask(Prompt::Continue(self.distro.clone())),
            Phase::ConfirmingDistroModule => Effect::Ask(
                Prompt::InstallDistroModule(self.distro.clone()),
            ),
            Phase::Scanning => Effect::Scan(commands_of(&self.catalog)),
            Phase::Choosing => Effect::Choose(offer(&self.applicable)),
            Phase::ConfirmingPlan => Effect::Ask(Prompt::Proceed(copy_entries(&self.plan.modules))),
            Phase::ReadingHome => Effect::ReadHome,
            Phase::Removing => Effect::RemoveTree(share_directory(self.home.as_str())),
            Phase::CreatingWorkspace => Effect::CreateDirectories(workspace(self.home.as_str())),
            Phase::CreatingShare => Effect::CreateDirectories(share_directory(self.home.as_str())),
            Phase::Cloning => Effect::Clone {
                repository: String::from_str(REPOSITORY),
                directory: workspace(self.home.as_str()),
            },
            Phase::Moving => Effect::Rename {
                from: checkout(self.home.as_str()),
                to: source_directory(self.home.as_str()),
            },
            Phase::Building => Effect::Build { directory: source_directory(self.home.as_str()) },
            Phase::ReadingSearchPath => Effect::ReadSearchPath,
            Phase::SettingSearchPath => Effect::SetSearchPath(
                extend_search_path(self.search_path.as_str(), self.home.as_str()),
            ),
            Phase::Appending => Effect::Append {
                path: profile(self.home.as_str()),
                text: profile_addition(self.home.as_str()),
            },
            Phase::Installing(k) => Effect::InstallModule {
                readable_name: self.plan.modules[k].0.clone(),
                name: self.plan.modules[k].1.clone(),
            },
            Phase::Reporting(k) => Effect::Say(
                Notice::ModuleFailed(self.plan.modules[k].1.clone()),
            ),
            Phase::Installed => Effect::Exit(Verdict::Installed),
            Phase::Undetected => Effect::Exit(Verdict::NoDistribution),
            Phase::Unconfirmed => Effect::Exit(Verdict::NotConfirmed),
            Phase::ReinstallDeclined => Effect::Exit(Verdict::ReinstallDeclined),
            Phase::ContinuationDeclined => Effect::Exit(Verdict::ContinuationDeclined),
            Phase::Lacking(i) => Effect::Exit(Verdict::MissingRequirement(requirement(i))),
            Phase::Failed => Effect::Exit(Verdict::Failed),
        }
    }

    /// Whether `event` can be what came of the pending effect.
    pub fn accepts(&self, event: &Event) -> (accepted: bool)
        ensures
            accepted == self@.accepts(event@),
    {
        match self.phase {
            Phase::Locating | Phase::Requiring(_) => matches!(event, Event::Resolved(_)),
            Phase::SettingSearchPath => matches!(event, Event::Done),
            Phase::ConfirmingReinstall
            | Phase::ConfirmingContinuation
            | Phase::ConfirmingDistroModule
            | Phase::ConfirmingPlan
            | Phase::ReadingRelease
            | Phase::Searching
            | Phase::ReadingHome
            | Phase::ReadingSearchPath => matches!(event, Event::Text(_) | Event::Failed),
            Phase::Scanning => matches!(event, Event::Found(_)),
            Phase::Choosing => match event {
                Event::Failed => true,
                Event::Chosen(choices) => all_below(choices, self.applicable.len()),
                _ => false,
            },
            Phase::Announcing
            | Phase::Congratulating
            | Phase::Introducing
            | Phase::Reporting(_)
            | Phase::Removing
            | Phase::CreatingWorkspace
            | Phase::CreatingShare
            | Phase::Moving
            | Phase::Appending => matches!(event, Event::Done | Event::Failed),
            Phase::Cloning | Phase::Building | Phase::Installing(_) => matches!(
                event,
                Event::Exited(_) | Event::Failed
            ),
            Phase::Installed
            | Phase::Undetected
            | Phase::Unconfirmed
            | Phase::ReinstallDeclined
            | Phase::ContinuationDeclined
            | Phase::Lacking(_)
            | Phase::Failed => false,
        }
    }

    /// The same run in another phase.
    fn moved_to(self, phase: Phase) -> (next: Self)
        requires
            self@.at(phase).well_formed(),
        ensures
            next@ == self@.at(phase),
    {
        Installer { phase, ..self }
    }

    /// The run in `phase` if the step succeeded, at its failed end if not.
    fn moved_if(self, succeeded: bool, phase: Phase) -> (next: Self)
        requires
            self@.at(phase).well_formed(),
        ensures
            next@ == self@.proceeds(succeeded, phase),
    {
        if succeeded {
            self.moved_to(phase)
        } else {
            self.moved_to(Phase::Failed)
        }
    }

    /// The run about to install the planned module at position `k`, or over
    /// when there is none.
    fn install_from(self, k: usize) -> (next: Self)
        ensures
            next@ == self@.installing_from(k as int),
    {
        if k < self.plan.modules.len() {
            self.moved_to(Phase::Installing(k))
        } else {
            self.moved_to(Phase::Installed)
        }
    }

    /// The run with its plan marked as a reinstallation.
    fn reinstalling(self) -> (next: Self)
        ensures
            next@ == self@.reinstalling(),
    {
        proof {
            use_type_invariant(&self);
        }
        let Installer { phase, mut plan, catalog, applicable, distro, home, search_path } = self;
        plan.mark_reinstallation();
        Installer { phase, plan, catalog, applicable, distro, home, search_path }
    }

    /// The run with the module for the distribution at the end of its plan.
    fn planning_distro_module(self) -> (next: Self)
        requires
            !self@.phase.precedes_planning(),
        ensures
            next@ == self@.planning(seq![distro_entry(self@.distro)]),
    {
        proof {
            use_type_invariant(&self);
        }
        let Installer { phase, mut plan, catalog, applicable, distro, home, search_path } = self;
        let ghost before = plan@.modules;
        plan.approve_distro(distro.as_str());
        assert(plan@.modules =~= before + seq![distro_entry(distro@)]);
        Installer { phase, plan, catalog, applicable, distro, home, search_path }
    }

    /// The run with the chosen modules at the end of its plan.
    fn planning_choices(self, choices: &Vec<usize>) -> (next: Self)
        requires
            !self@.phase.precedes_planning(),
            in_range(choices@, self@.applicable.len()),
        ensures
            next@ == self@.planning(chosen(self@.applicable, choices@)),
    {
        proof {
            use_type_invariant(&self);
        }
        let Installer { phase, mut plan, catalog, applicable, distro, home, search_path } = self;
        plan.select(&applicable, choices);
        Installer { phase, plan, catalog, applicable, distro, home, search_path }
    }

    /// Takes what came of the pending effect and moves on.
    pub fn advance(self, event: Event) -> (next: Self)
        requires
            self@.accepts(event@),
        ensures
            next@ == self@.after(event@),
            next@.well_formed(),
    {
        proof {
            use_type_invariant(&self);
            assert(self@.plan.modules.len() == self.plan.modules.len());
        }
        match self.phase {
            Phase::Locating => match event {
                Event::Resolved(true) => self.moved_to(Phase::ConfirmingReinstall),
                _ => self.moved_to(Phase::Announcing),
            },
            Phase::ConfirmingReinstall => match event {
                Event::Text(answer) => if user_confirmed(answer.as_str()) {
                    self.reinstalling().moved_to(Phase::Announcing)
                } else {
                    self.moved_to(Phase::ReinstallDeclined)
                },
                _ => self.moved_to(Phase::Failed),
            },
            Phase::Announcing => self.moved_if(matches!(event, Event::Done), Phase::Requiring(0)),
            Phase::Requiring(i) => match event {
                Event::Resolved(true) => if i + 1 < required_commands().len() {
                    self.moved_to(Phase::Requiring(i + 1))
                } else {
                    self.moved_to(Phase::Congratulating)
                },
                _ => self.moved_to(Phase::Lacking(i)),
            },
            Phase::Congratulating => self.moved_if(
                matches!(event, Event::Done),
                Phase::ReadingRelease,
            ),
            Phase::ReadingRelease => match event {
                Event::Text(release) => match detect(release.as_str()) {
                    Some(distro) => Installer { phase: Phase::Introducing, distro, ..self },
                    None => self.moved_to(Phase::Undetected),
                },
                _ => self.moved_to(Phase::Failed),
            },
            Phase::Introducing => self.moved_if(matches!(event, Event::Done), Phase::Searching),
            Phase::Searching => match event {
                Event::Text(output) => if is_listed(output.as_str()) {
                    self.moved_to(Phase::ConfirmingDistroModule)
                } else {
                    self.moved_to(Phase::ConfirmingContinuation)
                },
                _ => self.moved_to(Phase::Failed),
            },
            Phase::ConfirmingContinuation => match event {
                Event::Text(answer) => if user_confirmed(answer.as_str()) {
                    self.moved_to(Phase::Scanning)
                } else {
                    self.moved_to(Phase::ContinuationDeclined)
                },
                _ => self.moved_to(Phase::Failed),
            },
            Phase::ConfirmingDistroModule => match event {
                Event::Text(answer) => if user_confirmed(answer.as_str()) {
                    self.moved_to(Phase::Scanning).planning_distro_module()
                } else {
                    self.moved_to(Phase::Scanning)
                },
                _ => self.moved_to(Phase::Failed),
            },
            Phase::Scanning => match event {
                Event::Found(found) => {
                    let applicable = applicable_modules(&self.catalog, &found);
                    Installer { phase: Phase::Choosing, applicable, ..self }
                },
                _ => self.moved_to(Phase::Failed),
            },
            Phase::Choosing => match event {
                Event::Chosen(choices) => self.moved_to(Phase::ConfirmingPlan).planning_choices(
                    &choices,
                ),
                _ => self.moved_to(Phase::Failed),
            },
            Phase::ConfirmingPlan => match event {
                Event::Text(answer) => if user_confirmed(answer.as_str()) {
                    self.moved_to(Phase::ReadingHome)
                } else {
                    self.moved_to(Phase::Unconfirmed)
                },
                _ => self.moved_to(Phase::Failed),
            },
            Phase::ReadingHome => match event {
                Event::Text(home) => {
                    let phase = if self.plan.is_reinstallation {
                        Phase::Removing
                    } else {
                        Phase::CreatingWorkspace
                    };
                    Installer { phase, home, ..self }
                },
                _ => self.moved_to(Phase::Failed),
            },
            Phase::Removing => self.moved_to(Phase::CreatingWorkspace),
            Phase::CreatingWorkspace => self.moved_if(
                matches!(event, Event::Done),
                Phase::CreatingShare,
            ),
            Phase::CreatingShare => self.moved_if(matches!(event, Event::Done), Phase::Cloning),
            Phase::Cloning => self.moved_if(matches!(event, Event::Exited(_)), Phase::Moving),
            Phase::Moving => self.moved_if(matches!(event, Event::Done), Phase::Building),
            Phase::Building => self.moved_if(
                matches!(event, Event::Exited(_)),
                Phase::ReadingSearchPath,
            ),
            Phase::ReadingSearchPath => match event {
                Event::Text(search_path) => Installer {
                    phase: Phase::SettingSearchPath,
                    search_path,
                    ..self
                },
                _ => self.moved_to(Phase::Failed),
            },
            Phase::SettingSearchPath => self.moved_to(Phase::Appending),
            Phase::Appending => match event {
                Event::Done => self.install_from(0),
                _ => self.moved_to(Phase::Failed),
            },
            Phase::Installing(k) => match event {
                Event::Exited(_) => self.install_from(k + 1),
                _ => self.moved_to(Phase::Reporting(k)),
            },
            Phase::Reporting(k) => match event {
                Event::Done => self.install_from(k + 1),
                _ => self.moved_to(Phase::Failed),
            },
            Phase::Installed
            | Phase::Undetected
            | Phase::Unconfirmed
            | Phase::ReinstallDeclined
            | Phase::ContinuationDeclined
            | Phase::Lacking(_)
            | Phase::Failed => self,
        }
    }

    /// Whether the run is over.
    pub fn is_over(&self) -> (over: bool)
        ensures
            over == self@.phase.is_final(),
    {
        match self.phase {
            Phase::Installed
            | Phase::Undetected
            | Phase::Unconfirmed
            | Phase::ReinstallDeclined
            | Phase::ContinuationDeclined
            | Phase::Lacking(_)
            | Phase::Failed => true,
            _ => false,
        }
    }
}

} // verus!
