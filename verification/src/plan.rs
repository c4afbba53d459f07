//! The installation plan: the modules that the user approved, in the order in
//! which they will be installed.

use crate::catalog::{Module, ModuleView, views};
use crate::distro::{title_case, to_title_case};
use vstd::prelude::*;

verus! {

/// What a run of the installer has been told to install.
#[derive(Debug)]
pub struct Installation {
    /// The approved modules, each as its label and its identifier.
    pub modules: Vec<(String, String)>,
    /// Whether darling was found on the host and is being installed again.
    pub is_reinstallation: bool,
}

/// What an [`Installation`] holds, as plain sequences of characters.
pub struct InstallationView {
    pub modules: Seq<(Seq<char>, Seq<char>)>,
    pub is_reinstallation: bool,
}

/// The entries of a plan as pairs of character sequences.
pub open spec fn entries(v: Seq<(String, String)>) -> Seq<(Seq<char>, Seq<char>)> {
    v.map_values(|entry: (String, String)| (entry.0@, entry.1@))
}

impl View for Installation {
    type V = InstallationView;

    open spec fn view(&self) -> InstallationView {
        InstallationView {
            modules: entries(self.modules@),
            is_reinstallation: self.is_reinstallation,
        }
    }
}

/// The entry under which a module of the catalog is planned.
pub open spec fn entry_of(module: ModuleView) -> (Seq<char>, Seq<char>) {
    (module.readable_name, module.name)
}

/// The entry under which the module for the distribution `distro` is planned:
/// its label is the identifier in title case.
pub open spec fn distro_entry(distro: Seq<char>) -> (Seq<char>, Seq<char>) {
    (title_case(distro), distro)
}

/// The entries of the modules that the indices `choices` pick from
/// `applicable`, in the order of `choices`.
pub open spec fn chosen(applicable: Seq<ModuleView>, choices: Seq<usize>) -> Seq<
    (Seq<char>, Seq<char>),
> {
    choices.map_values(|choice: usize| entry_of(applicable[choice as int]))
}

/// Whether every index in `choices` picks a module of a list of length `count`.
pub open spec fn in_range(choices: Seq<usize>, count: nat) -> bool {
    forall|k: int| 0 <= k < choices.len() ==> choices[k] < count
}

/// A copy of the entries of a plan.
pub fn copy_entries(v: &Vec<(String, String)>) -> (copy: Vec<(String, String)>)
    ensures
        entries(copy@) == entries(v@),
{
    let mut copy: Vec<(String, String)> = Vec::new();
    let mut i: usize = 0;
    while i < v.len()
        invariant
            i <= v.len(),
            copy.len() == i,
            forall|j: int| 0 <= j < i ==> copy@[j].0@ == v@[j].0@ && copy@[j].1@ == v@[j].1@,
        decreases v.len() - i,
    {
        copy.push((v[i].0.clone(), v[i].1.clone()));
        i = i + 1;
    }
    copy
}

/// The entries under which the modules of a list would be planned.
pub open spec fn entries_of(modules: Seq<ModuleView>) -> Seq<(Seq<char>, Seq<char>)> {
    modules.map_values(|module: ModuleView| entry_of(module))
}

/// Lists modules by label and identifier, as they are offered to the user.
pub fn offer(modules: &Vec<Module>) -> (offered: Vec<(String, String)>)
    ensures
        entries(offered@) == entries_of(views(modules@)),
{
    let mut offered: Vec<(String, String)> = Vec::new();
    let mut i: usize = 0;
    while i < modules.len()
        invariant
            i <= modules.len(),
            offered.len() == i,
            forall|j: int|
                0 <= j < i ==> offered@[j].0@ == modules@[j].readable_name@ && offered@[j].1@
                    == modules@[j].name@,
        decreases modules.len() - i,
    {
        offered.push((modules[i].readable_name.clone(), modules[i].name.clone()));
        i = i + 1;
    }
    offered
}

impl Installation {
    /// A plan with no module in it, for a first installation.
    pub fn blank() -> (plan: Self)
        ensures
            plan@.modules == Seq::<(Seq<char>, Seq<char>)>::empty(),
            !plan@.is_reinstallation,
    {
        let plan = Self { modules: Vec::new(), is_reinstallation: false };
        plan
    }

    /// Records that darling is already on the host and will be installed anew.
    pub fn mark_reinstallation(&mut self)
        ensures
            final(self)@.modules == old(self)@.modules,
            final(self)@.is_reinstallation,
    {
        self.is_reinstallation = true;
    }

    /// Appends a module to the plan.
    pub fn approve(&mut self, readable_name: String, name: String)
        ensures
            final(self)@.modules == old(self)@.modules.push((readable_name@, name@)),
            final(self)@.is_reinstallation == old(self)@.is_reinstallation,
    {
        self.modules.push((readable_name, name));
    }

    /// Appends the module for the distribution `distro` to the plan.
    pub fn approve_distro(&mut self, distro: &str)
        ensures
            final(self)@.modules == old(self)@.modules.push(distro_entry(distro@)),
            final(self)@.is_reinstallation == old(self)@.is_reinstallation,
    {
        let label = to_title_case(distro);
        self.approve(label, distro.to_owned());
    }

    /// Appends the modules that the user chose among the applicable ones. They
    /// are appended in the order in which they were chosen, whatever their
    /// order in `applicable`.
    pub fn select(&mut self, applicable: &Vec<Module>, choices: &Vec<usize>)
        requires
            in_range(choices@, applicable@.len()),
        ensures
            final(self)@.modules == old(self)@.modules + chosen(views(applicable@), choices@),
            final(self)@.is_reinstallation == old(self)@.is_reinstallation,
    {
        let mut k: usize = 0;
        while k < choices.len()
            invariant
                k <= choices.len(),
                in_range(choices@, applicable@.len()),
                self@.modules == old(self)@.modules + chosen(views(applicable@), choices@).take(
                    k as int,
                ),
                self@.is_reinstallation == old(self)@.is_reinstallation,
            decreases choices.len() - k,
        {
            let module = &applicable[choices[k]];
            self.approve(module.readable_name.clone(), module.name.clone());
            k = k + 1;
        }
    }
}

} // verus!
