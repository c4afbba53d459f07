//! What the installer asks its surroundings to do, and what they answer.
//!
//! The installer itself performs nothing. It names one [`Effect`] at a time;
//! whoever drives it carries the effect out and reports the [`Event`] that
//! came of it.

use crate::catalog::texts;
use crate::plan::entries;
use vstd::prelude::*;

verus! {

/// A question that is answered with a line of text.
#[derive(Debug, Clone, PartialEq, Eq)]
pub enum Prompt {
    /// Darling is on the host already: install it again?
    Reinstall,
    /// The registry lists no module for the distribution: go on without one?
    Continue(String),
    /// The registry lists a module for the distribution: install it?
    InstallDistroModule(String),
    /// The plan, as listed, is ready: carry it out?
    Proceed(Vec<(String, String)>),
}

/// A [`Prompt`] over plain sequences of characters.
pub enum PromptView {
    Reinstall,
    Continue(Seq<char>),
    InstallDistroModule(Seq<char>),
    Proceed(Seq<(Seq<char>, Seq<char>)>),
}

impl View for Prompt {
    type V = PromptView;

    open spec fn view(&self) -> PromptView {
        match self {
            Prompt::Reinstall => PromptView::Reinstall,
            Prompt::Continue(distro) => PromptView::Continue(distro@),
            Prompt::InstallDistroModule(distro) => PromptView::InstallDistroModule(distro@),
            Prompt::Proceed(modules) => PromptView::Proceed(entries(modules@)),
        }
    }
}

/// Something the user is told.
#[derive(Debug, Clone, PartialEq, Eq)]
pub enum Notice {
    /// The requirements are about to be checked.
    CheckingRequirements,
    /// Every requirement is installed.
    RequirementsMet,
    /// The host runs the named distribution.
    Distribution(String),
    /// The module with the given identifier could not be installed.
    ModuleFailed(String),
}

/// A [`Notice`] over plain sequences of characters.
pub enum NoticeView {
    CheckingRequirements,
    RequirementsMet,
    Distribution(Seq<char>),
    ModuleFailed(Seq<char>),
}

impl View for Notice {
    type V = NoticeView;

    open spec fn view(&self) -> NoticeView {
        match self {
            Notice::CheckingRequirements => NoticeView::CheckingRequirements,
            Notice::RequirementsMet => NoticeView::RequirementsMet,
            Notice::Distribution(distro) => NoticeView::Distribution(distro@),
            Notice::ModuleFailed(name) => NoticeView::ModuleFailed(name@),
        }
    }
}

/// How a run ended.
#[derive(Debug, Clone, PartialEq, Eq)]
pub enum Verdict {
    /// Darling and the planned modules were installed.
    Installed,
    /// The release file names no distribution, so nothing was installed.
    NoDistribution,
    /// The user did not confirm the plan, so nothing was installed.
    NotConfirmed,
    /// The user declined to install darling again.
    ReinstallDeclined,
    /// The user declined to go on without a module for the distribution.
    ContinuationDeclined,
    /// The named command is required and not installed.
    MissingRequirement(String),
    /// Something that the run depends on could not be done.
    Failed,
}

/// A [`Verdict`] over plain sequences of characters.
pub enum VerdictView {
    Installed,
    NoDistribution,
    NotConfirmed,
    ReinstallDeclined,
    ContinuationDeclined,
    MissingRequirement(Seq<char>),
    Failed,
}

impl View for Verdict {
    type V = VerdictView;

    open spec fn view(&self) -> VerdictView {
        match self {
            Verdict::Installed => VerdictView::Installed,
            Verdict::NoDistribution => VerdictView::NoDistribution,
            Verdict::NotConfirmed => VerdictView::NotConfirmed,
            Verdict::ReinstallDeclined => VerdictView::ReinstallDeclined,
            Verdict::ContinuationDeclined => VerdictView::ContinuationDeclined,
            Verdict::MissingRequirement(command) => VerdictView::MissingRequirement(command@),
            Verdict::Failed => VerdictView::Failed,
        }
    }
}

/// Whether a run that ended so ended well: with the installation done, or
/// with nothing to do, or given up by the user before anything was changed.
pub open spec fn graceful(verdict: VerdictView) -> bool {
    verdict is Installed || verdict is NoDistribution || verdict is NotConfirmed
}

impl Verdict {
    /// Whether the process should report success.
    pub fn is_graceful(&self) -> (ok: bool)
        ensures
            ok == graceful(self@),
    {
        match self {
            Verdict::Installed => true,
            Verdict::NoDistribution => true,
            Verdict::NotConfirmed => true,
            _ => false,
        }
    }
}

/// One thing for the surroundings to do.
#[derive(Debug, Clone, PartialEq, Eq)]
pub enum Effect {
    /// Find out whether the command resolves on the search path.
    Probe(String),
    /// Find out whether the required command resolves on the search path,
    /// and tell the user.
    Require(String),
    /// Tell the user something.
    Say(Notice),
    /// Ask the user and read a line.
    Ask(Prompt),
    /// Read the file that identifies the operating system.
    ReadRelease,
    /// Search the registry for the package and capture what is printed.
    Search(String),
    /// Find out which of the commands resolve on the search path.
    Scan(Vec<String>),
    /// Let the user pick any number of the listed modules.
    Choose(Vec<(String, String)>),
    /// Read the user's home directory from the environment.
    ReadHome,
    /// Remove the directory and everything below it.
    RemoveTree(String),
    /// Create the directory and its parents.
    CreateDirectories(String),
    /// Clone the repository inside the directory.
    Clone { repository: String, directory: String },
    /// Move a directory.
    Rename { from: String, to: String },
    /// Build the source in the directory for release.
    Build { directory: String },
    /// Read the search path from the environment.
    ReadSearchPath,
    /// Set the search path of this process.
    SetSearchPath(String),
    /// Append text to the file, creating it if need be.
    Append { path: String, text: String },
    /// Have darling install the module.
    InstallModule { readable_name: String, name: String },
    /// End the run.
    Exit(Verdict),
}

/// An [`Effect`] over plain sequences of characters.
pub enum EffectView {
    Probe(Seq<char>),
    Require(Seq<char>),
    Say(NoticeView),
    Ask(PromptView),
    ReadRelease,
    Search(Seq<char>),
    Scan(Seq<Seq<char>>),
    Choose(Seq<(Seq<char>, Seq<char>)>),
    ReadHome,
    RemoveTree(Seq<char>),
    CreateDirectories(Seq<char>),
    Clone { repository: Seq<char>, directory: Seq<char> },
    Rename { from: Seq<char>, to: Seq<char> },
    Build { directory: Seq<char> },
    ReadSearchPath,
    SetSearchPath(Seq<char>),
    Append { path: Seq<char>, text: Seq<char> },
    InstallModule { readable_name: Seq<char>, name: Seq<char> },
    Exit(VerdictView),
}

impl View for Effect {
    type V = EffectView;

    open spec fn view(&self) -> EffectView {
        match self {
            Effect::Probe(command) => EffectView::Probe(command@),
            Effect::Require(command) => EffectView::Require(command@),
            Effect::Say(notice) => EffectView::Say(notice@),
            Effect::Ask(prompt) => EffectView::Ask(prompt@),
            Effect::ReadRelease => EffectView::ReadRelease,
            Effect::Search(package) => EffectView::Search(package@),
            Effect::Scan(commands) => EffectView::Scan(texts(commands@)),
            Effect::Choose(modules) => EffectView::Choose(entries(modules@)),
            Effect::ReadHome => EffectView::ReadHome,
            Effect::RemoveTree(path) => EffectView::RemoveTree(path@),
            Effect::CreateDirectories(path) => EffectView::CreateDirectories(path@),
            Effect::Clone { repository, directory } => EffectView::Clone {
                repository: repository@,
                directory: directory@,
            },
            Effect::Rename { from, to } => EffectView::Rename { from: from@, to: to@ },
            Effect::Build { directory } => EffectView::Build { directory: directory@ },
            Effect::ReadSearchPath => EffectView::ReadSearchPath,
            Effect::SetSearchPath(value) => EffectView::SetSearchPath(value@),
            Effect::Append { path, text } => EffectView::Append { path: path@, text: text@ },
            Effect::InstallModule { readable_name, name } => EffectView::InstallModule {
                readable_name: readable_name@,
                name: name@,
            },
            Effect::Exit(verdict) => EffectView::Exit(verdict@),
        }
    }
}

/// What came of an effect.
#[derive(Debug, Clone, PartialEq, Eq)]
pub enum Event {
    /// The command resolves on the search path, or does not.
    Resolved(bool),
    /// The effect was carried out.
    Done,
    /// The effect could not be carried out.
    Failed,
    /// The process ran to its end; whether it reported success.
    Exited(bool),
    /// The text that was read: a line, a file, an output, a variable.
    Text(String),
    /// The commands, among those scanned, that resolve on the search path.
    Found(Vec<String>),
    /// The positions, in the list offered, of the modules that the user
    /// picked, in the order of picking.
    Chosen(Vec<usize>),
}

/// An [`Event`] over plain sequences.
pub enum EventView {
    Resolved(bool),
    Done,
    Failed,
    Exited(bool),
    Text(Seq<char>),
    Found(Seq<Seq<char>>),
    Chosen(Seq<usize>),
}

impl View for Event {
    type V = EventView;

    open spec fn view(&self) -> EventView {
        match self {
            Event::Resolved(found) => EventView::Resolved(*found),
            Event::Done => EventView::Done,
            Event::Failed => EventView::Failed,
            Event::Exited(success) => EventView::Exited(*success),
            Event::Text(text) => EventView::Text(text@),
            Event::Found(commands) => EventView::Found(texts(commands@)),
            Event::Chosen(choices) => EventView::Chosen(choices@),
        }
    }
}

} // verus!
