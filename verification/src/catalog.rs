//! The optional integration modules that darling knows, and which of them
//! apply to a host.

use vstd::prelude::*;
use vstd::string::StringExecFns;

verus! {

/// An optional integration that darling can manage.
#[derive(Debug)]
pub struct Module {
    /// The label shown to the user.
    pub readable_name: String,
    /// The identifier that darling installs the module by.
    pub name: String,
    /// The commands by which the integrated tool is recognised; one of them on
    /// the search path is enough.
    pub commands: Vec<String>,
}

/// What a [`Module`] holds, as plain sequences of characters.
pub struct ModuleView {
    pub readable_name: Seq<char>,
    pub name: Seq<char>,
    pub commands: Seq<Seq<char>>,
}

/// The character sequences of a list of strings.
pub open spec fn texts(v: Seq<String>) -> Seq<Seq<char>> {
    v.map_values(|s: String| s@)
}

impl View for Module {
    type V = ModuleView;

    open spec fn view(&self) -> ModuleView {
        ModuleView {
            readable_name: self.readable_name@,
            name: self.name@,
            commands: texts(self.commands@),
        }
    }
}

/// The views of a list of modules.
pub open spec fn views(v: Seq<Module>) -> Seq<ModuleView> {
    v.map_values(|m: Module| m@)
}

/// A copy of a list of strings.
pub fn copy_texts(v: &Vec<String>) -> (copy: Vec<String>)
    ensures
        texts(copy@) == texts(v@),
{
    let mut copy: Vec<String> = Vec::new();
    let mut i: usize = 0;
    while i < v.len()
        invariant
            i <= v.len(),
            copy.len() == i,
            forall|j: int| 0 <= j < i ==> copy@[j]@ == v@[j]@,
        decreases v.len() - i,
    {
        copy.push(v[i].clone());
        i = i + 1;
    }
    copy
}

impl Module {
    /// A copy of the module.
    pub fn duplicate(&self) -> (copy: Module)
        ensures
            copy@ == self@,
    {
        Module {
            readable_name: self.readable_name.clone(),
            name: self.name.clone(),
            commands: copy_texts(&self.commands),
        }
    }
}

/// The modules that darling ships integrations for, in the order in which
/// they are offered.
pub open spec fn known_modules() -> Seq<ModuleView> {
    seq![
        ModuleView { readable_name: "Cargo"@, name: "cargo"@, commands: seq!["cargo"@] },
        ModuleView {
            readable_name: "Visual Studio Code"@,
            name: "vscode"@,
            commands: seq!["code"@, "codium"@],
        },
    ]
}

/// The catalog of known modules.
pub fn catalog() -> (modules: Vec<Module>)
    ensures
        views(modules@) == known_modules(),
{
    let mut cargo_commands: Vec<String> = Vec::new();
    cargo_commands.push(String::from_str("cargo"));
    let cargo = Module {
        readable_name: String::from_str("Cargo"),
        name: String::from_str("cargo"),
        commands: cargo_commands,
    };
    assert(cargo@.commands =~= seq!["cargo"@]);
    let mut vscode_commands: Vec<String> = Vec::new();
    vscode_commands.push(String::from_str("code"));
    vscode_commands.push(String::from_str("codium"));
    let vscode = Module {
        readable_name: String::from_str("Visual Studio Code"),
        name: String::from_str("vscode"),
        commands: vscode_commands,
    };
    assert(vscode@.commands =~= seq!["code"@, "codium"@]);
    let mut modules: Vec<Module> = Vec::new();
    modules.push(cargo);
    modules.push(vscode);
    modules
}

/// Whether one of the module's commands is among `found`.
pub open spec fn resolves_any(module: ModuleView, found: Seq<Seq<char>>) -> bool {
    exists|j: int|
        0 <= j < module.commands.len() && found.contains(#[trigger] module.commands[j])
}

/// The modules of `catalog` that apply where the commands `found` resolve, in
/// the order of the catalog.
pub open spec fn applicable(catalog: Seq<ModuleView>, found: Seq<Seq<char>>) -> Seq<ModuleView> {
    catalog.filter(|module: ModuleView| resolves_any(module, found))
}

/// A module is among the applicable ones exactly when the catalog lists it
/// and one of its commands resolves.
pub proof fn applicable_are_those_that_resolve(
    catalog: Seq<ModuleView>,
    found: Seq<Seq<char>>,
    module: ModuleView,
)
    ensures
        applicable(catalog, found).contains(module) <==> catalog.contains(module) && resolves_any(
            module,
            found,
        ),
{
    let picks = |module: ModuleView| resolves_any(module, found);
    if applicable(catalog, found).contains(module) {
        catalog.lemma_filter_contains_rev(picks, module);
    }
}

/// The applicable modules stand in the order of the catalog: those of the
/// catalog's first part come first, then those of the rest.
pub proof fn applicable_keep_their_order(
    first: Seq<ModuleView>,
    rest: Seq<ModuleView>,
    found: Seq<Seq<char>>,
)
    ensures
        applicable(first + rest, found) == applicable(first, found) + applicable(rest, found),
{
    Seq::filter_distributes_over_add(first, rest, |module: ModuleView| resolves_any(module, found));
}

/// Whether `command` is one of `found`.
pub fn is_among(found: &Vec<String>, command: &String) -> (among: bool)
    ensures
        among == texts(found@).contains(command@),
{
    let mut i: usize = 0;
    while i < found.len()
        invariant
            i <= found.len(),
            forall|j: int| 0 <= j < i ==> found@[j]@ != command@,
        decreases found.len() - i,
    {
        if found[i] == *command {
            assert(texts(found@)[i as int] == command@);
            return true;
        }
        i = i + 1;
    }
    false
}

impl Module {
    /// Whether the module applies where the commands `found` resolve: one of
    /// its commands among them is enough.
    pub fn is_applicable(&self, found: &Vec<String>) -> (applies: bool)
        ensures
            applies == resolves_any(self@, texts(found@)),
    {
        let mut j: usize = 0;
        while j < self.commands.len()
            invariant
                j <= self.commands.len(),
                forall|k: int| 0 <= k < j ==> !texts(found@).contains(self.commands@[k]@),
            decreases self.commands.len() - j,
        {
            if is_among(found, &self.commands[j]) {
                assert(self@.commands[j as int] == self.commands@[j as int]@);
                return true;
            }
            j = j + 1;
        }
        false
    }
}

/// Picks from the catalog the modules that apply where the commands `found`
/// resolve. The catalog's order is kept.
pub fn applicable_modules(catalog: &Vec<Module>, found: &Vec<String>) -> (modules: Vec<Module>)
    ensures
        views(modules@) == applicable(views(catalog@), texts(found@)),
{
    let ghost picks = |module: ModuleView| resolves_any(module, texts(found@));
    let mut modules: Vec<Module> = Vec::new();
    let mut i: usize = 0;
    while i < catalog.len()
        invariant
            i <= catalog.len(),
            picks == |module: ModuleView| resolves_any(module, texts(found@)),
            views(modules@) == views(catalog@).take(i as int).filter(picks),
        decreases catalog.len() - i,
    {
        proof {
            views(catalog@).lemma_take_succ_push(i as int);
            views(catalog@).take(i as int).lemma_filter_push(catalog@[i as int]@, picks);
        }
        if catalog[i].is_applicable(found) {
            modules.push(catalog[i].duplicate());
        }
        i = i + 1;
    }
    assert(views(catalog@).take(catalog.len() as int) == views(catalog@));
    modules
}

/// Every command by which a module of `catalog` is recognised, module by
/// module.
pub open spec fn detection_commands(catalog: Seq<ModuleView>) -> Seq<Seq<char>> {
    catalog.map_values(|module: ModuleView| module.commands).flatten()
}

/// Lists the commands to look for in order to tell which modules apply.
pub fn commands_of(catalog: &Vec<Module>) -> (commands: Vec<String>)
    ensures
        texts(commands@) == detection_commands(views(catalog@)),
{
    let ghost lists = views(catalog@).map_values(|module: ModuleView| module.commands);
    let mut commands: Vec<String> = Vec::new();
    let mut i: usize = 0;
    while i < catalog.len()
        invariant
            i <= catalog.len(),
            lists == views(catalog@).map_values(|module: ModuleView| module.commands),
            texts(commands@) == lists.take(i as int).flatten(),
        decreases catalog.len() - i,
    {
        let module = &catalog[i];
        let ghost before = commands@;
        let mut j: usize = 0;
        while j < module.commands.len()
            invariant
                j <= module.commands.len(),
                texts(commands@) == texts(before) + texts(module.commands@).take(j as int),
            decreases module.commands.len() - j,
        {
            let ghost earlier = commands@;
            commands.push(module.commands[j].clone());
            assert(texts(commands@) =~= texts(earlier).push(module.commands@[j as int]@));
            j = j + 1;
        }
        proof {
            lists.lemma_take_succ_push(i as int);
            lists.take(i as int).lemma_flatten_push(lists[i as int]);
        }
        i = i + 1;
    }
    assert(lists.take(catalog.len() as int) == lists);
    commands
}

} // verus!
