use darling_installer::catalog::Module;
use darling_installer::effect::{Effect, Event, Notice, Prompt, Verdict};
use darling_installer::installer::{required_commands, Installer};
use darling_installer::workflow::Phase;

fn text(value: &str) -> Event {
    Event::Text(value.to_owned())
}

fn entry(readable_name: &str, name: &str) -> (String, String) {
    (readable_name.to_owned(), name.to_owned())
}

fn abc() -> Vec<Module> {
    let module = |readable_name: &str, name: &str, command: &str| Module {
        readable_name: readable_name.to_owned(),
        name: name.to_owned(),
        commands: vec![command.to_owned()],
    };
    vec![
        module("Module A", "a", "a-tool"),
        module("Module B", "b", "b-tool"),
        module("Module C", "c", "c-tool"),
    ]
}

/// Feeds the events to the installer and lists the effects it asked for,
/// beginning with the one it was waiting for at first.
fn drive(installer: Installer, events: Vec<Event>) -> (Installer, Vec<Effect>) {
    let mut installer = installer;
    let mut effects = vec![installer.pending()];
    for event in events {
        assert!(installer.accepts(&event), "{:?} at {:?}", event, installer.phase());
        installer = installer.advance(event);
        effects.push(installer.pending());
    }
    (installer, effects)
}

/// The events of a first installation up to the reading of the release file.
fn requirements_met() -> Vec<Event> {
    vec![
        Event::Resolved(false),
        Event::Done,
        Event::Resolved(true),
        Event::Resolved(true),
        Event::Done,
    ]
}

/// The events of a first installation on Arch, with the registry listing a
/// module for it, up to the question about that module.
fn distro_module_offered() -> Vec<Event> {
    let mut events = requirements_met();
    events.push(text("NAME=\"Arch Linux\"\nID=arch\n"));
    events.push(Event::Done);
    events.push(text("darling-arch = \"0.1.0\"\n"));
    events
}

/// The events of a first installation on Arch up to the confirmation of a
/// plan of the distribution's module and module B.
fn planned() -> Vec<Event> {
    let mut events = distro_module_offered();
    events.push(text("y\n"));
    events.push(Event::Found(vec!["b-tool".to_owned()]));
    events.push(Event::Chosen(vec![0]));
    events
}

fn is_build_step(effect: &Effect) -> bool {
    matches!(
        effect,
        Effect::RemoveTree(_)
            | Effect::CreateDirectories(_)
            | Effect::Clone { .. }
            | Effect::Rename { .. }
            | Effect::Build { .. }
            | Effect::SetSearchPath(_)
            | Effect::Append { .. }
            | Effect::InstallModule { .. }
    )
}

#[test]
fn a_run_begins_by_looking_for_darling() {
    let installer = Installer::new();
    assert_eq!(installer.phase(), Phase::Locating);
    assert_eq!(installer.pending(), Effect::Probe("darling".to_owned()));
    assert!(!installer.is_over());
    assert!(installer.plan().modules.is_empty());
    assert!(!installer.plan().is_reinstallation);
}

#[test]
fn git_and_cargo_are_required() {
    assert_eq!(required_commands(), vec!["git".to_owned(), "cargo".to_owned()]);
}

#[test]
fn a_release_file_without_identifier_ends_the_run_after_the_requirements() {
    let mut events = requirements_met();
    events.push(text("NAME=\"Some Linux\"\nPRETTY_NAME=\"Some Linux 1\"\n"));
    let (installer, effects) = drive(Installer::new(), events);
    assert_eq!(
        effects,
        vec![
            Effect::Probe("darling".to_owned()),
            Effect::Say(Notice::CheckingRequirements),
            Effect::Require("git".to_owned()),
            Effect::Require("cargo".to_owned()),
            Effect::Say(Notice::RequirementsMet),
            Effect::ReadRelease,
            Effect::Exit(Verdict::NoDistribution),
        ]
    );
    assert!(installer.is_over());
    assert!(Verdict::NoDistribution.is_graceful());
    assert!(!effects.iter().any(is_build_step));
}

#[test]
fn an_unreadable_release_file_fails_the_run() {
    let mut events = requirements_met();
    events.push(Event::Failed);
    let (installer, effects) = drive(Installer::new(), events);
    assert_eq!(effects.last(), Some(&Effect::Exit(Verdict::Failed)));
    assert_eq!(installer.phase(), Phase::Failed);
    assert!(!Verdict::Failed.is_graceful());
    assert!(!effects.iter().any(is_build_step));
}

#[test]
fn a_missing_requirement_ends_the_run_at_once() {
    let events = vec![Event::Resolved(false), Event::Done, Event::Resolved(false)];
    let (installer, effects) = drive(Installer::new(), events);
    assert_eq!(
        effects,
        vec![
            Effect::Probe("darling".to_owned()),
            Effect::Say(Notice::CheckingRequirements),
            Effect::Require("git".to_owned()),
            Effect::Exit(Verdict::MissingRequirement("git".to_owned())),
        ]
    );
    assert_eq!(installer.phase(), Phase::Lacking(0));
    assert!(installer.is_over());
    assert!(!Verdict::MissingRequirement("git".to_owned()).is_graceful());
}

#[test]
fn the_second_requirement_is_checked_after_the_first() {
    let events =
        vec![Event::Resolved(false), Event::Done, Event::Resolved(true), Event::Resolved(false)];
    let (installer, effects) = drive(Installer::new(), events);
    assert_eq!(
        effects.last(),
        Some(&Effect::Exit(Verdict::MissingRequirement("cargo".to_owned())))
    );
    assert_eq!(installer.phase(), Phase::Lacking(1));
}

#[test]
fn an_installed_darling_leads_to_the_question_of_reinstalling() {
    let (installer, effects) = drive(Installer::new(), vec![Event::Resolved(true)]);
    assert_eq!(effects.last(), Some(&Effect::Ask(Prompt::Reinstall)));
    assert!(!installer.plan().is_reinstallation);
}

#[test]
fn declining_to_reinstall_ends_the_run() {
    for answer in ["n\n", "\n", "yes\n", "no"] {
        let events = vec![Event::Resolved(true), text(answer)];
        let (installer, effects) = drive(Installer::new(), events);
        assert_eq!(effects.last(), Some(&Effect::Exit(Verdict::ReinstallDeclined)));
        assert!(installer.is_over());
        assert!(!installer.plan().is_reinstallation);
    }
    assert!(!Verdict::ReinstallDeclined.is_graceful());
}

#[test]
fn an_answer_that_cannot_be_read_fails_the_run() {
    let (_, effects) = drive(Installer::new(), vec![Event::Resolved(true), Event::Failed]);
    assert_eq!(effects.last(), Some(&Effect::Exit(Verdict::Failed)));
}

#[test]
fn consenting_to_reinstall_marks_the_plan_and_goes_on_to_the_requirements() {
    let (installer, effects) = drive(Installer::new(), vec![Event::Resolved(true), text("Y\n")]);
    assert_eq!(effects.last(), Some(&Effect::Say(Notice::CheckingRequirements)));
    assert!(installer.plan().is_reinstallation);
}

#[test]
fn a_detected_distribution_is_told_and_searched_for() {
    let mut events = requirements_met();
    events.push(text("NAME=\"Arch Linux\"\nID=arch\n"));
    events.push(Event::Done);
    let (_, effects) = drive(Installer::new(), events);
    assert_eq!(
        effects[6..],
        [
            Effect::Say(Notice::Distribution("arch".to_owned())),
            Effect::Search("darling-arch".to_owned()),
        ]
    );
}

#[test]
fn a_search_that_cannot_run_fails_the_run() {
    let mut events = requirements_met();
    events.push(text("ID=arch\n"));
    events.push(Event::Done);
    events.push(Event::Failed);
    let (_, effects) = drive(Installer::new(), events);
    assert_eq!(effects.last(), Some(&Effect::Exit(Verdict::Failed)));
}

#[test]
fn an_empty_search_output_leads_to_the_question_of_going_on() {
    let mut events = requirements_met();
    events.push(text("ID=arch\n"));
    events.push(Event::Done);
    events.push(text(""));
    let (_, effects) = drive(Installer::new(), events);
    assert_eq!(effects.last(), Some(&Effect::Ask(Prompt::Continue("arch".to_owned()))));
}

#[test]
fn declining_to_go_on_without_a_distro_module_ends_the_run() {
    let mut events = requirements_met();
    events.push(text("ID=arch\n"));
    events.push(Event::Done);
    events.push(text(""));
    events.push(text("n\n"));
    let (installer, effects) = drive(Installer::new(), events);
    assert_eq!(effects.last(), Some(&Effect::Exit(Verdict::ContinuationDeclined)));
    assert!(installer.is_over());
    assert!(!Verdict::ContinuationDeclined.is_graceful());
}

#[test]
fn going_on_without_a_distro_module_plans_only_the_choices() {
    let mut events = requirements_met();
    events.push(text("ID=arch\n"));
    events.push(Event::Done);
    events.push(text(""));
    events.push(text("y\n"));
    events.push(Event::Found(vec!["c-tool".to_owned(), "a-tool".to_owned()]));
    events.push(Event::Chosen(vec![1, 0]));
    let (installer, effects) = drive(Installer::with_catalog(abc()), events);
    let plan = vec![entry("Module C", "c"), entry("Module A", "a")];
    assert_eq!(installer.plan().modules, plan);
    assert_eq!(effects.last(), Some(&Effect::Ask(Prompt::Proceed(plan))));
}

#[test]
fn any_search_output_leads_to_the_question_of_the_distro_module() {
    for output in ["darling-arch = \"0.1.0\"\n", " ", "note: nothing found\n"] {
        let mut events = requirements_met();
        events.push(text("ID=arch\n"));
        events.push(Event::Done);
        events.push(text(output));
        let (_, effects) = drive(Installer::new(), events);
        assert_eq!(
            effects.last(),
            Some(&Effect::Ask(Prompt::InstallDistroModule("arch".to_owned())))
        );
    }
}

#[test]
fn declining_the_distro_module_goes_on_without_it() {
    let mut events = distro_module_offered();
    events.push(text("n\n"));
    events.push(Event::Found(Vec::new()));
    let (installer, effects) = drive(Installer::new(), events);
    assert!(installer.plan().modules.is_empty());
    assert_eq!(effects.last(), Some(&Effect::Choose(Vec::new())));
}

#[test]
fn the_scan_asks_for_every_detection_command() {
    let mut events = distro_module_offered();
    events.push(text("y\n"));
    let (_, effects) = drive(Installer::new(), events);
    assert_eq!(
        effects.last(),
        Some(&Effect::Scan(vec!["cargo".to_owned(), "code".to_owned(), "codium".to_owned()]))
    );
}

#[test]
fn the_applicable_modules_are_offered_in_the_order_of_the_catalog() {
    let mut events = distro_module_offered();
    events.push(text("y\n"));
    events.push(Event::Found(vec!["codium".to_owned(), "cargo".to_owned()]));
    let (_, effects) = drive(Installer::new(), events);
    assert_eq!(
        effects.last(),
        Some(&Effect::Choose(vec![entry("Cargo", "cargo"), entry("Visual Studio Code", "vscode")]))
    );
}

#[test]
fn the_plan_lists_the_distro_module_and_then_the_choices_in_their_order() {
    let mut events = distro_module_offered();
    events.push(text("y\n"));
    events.push(Event::Found(vec!["a-tool".to_owned(), "b-tool".to_owned(), "c-tool".to_owned()]));
    events.push(Event::Chosen(vec![1, 0]));
    let (installer, effects) = drive(Installer::with_catalog(abc()), events);
    let plan = vec![entry("Arch", "arch"), entry("Module B", "b"), entry("Module A", "a")];
    assert_eq!(installer.plan().modules, plan);
    assert_eq!(effects.last(), Some(&Effect::Ask(Prompt::Proceed(plan))));
}

#[test]
fn choices_refer_to_the_applicable_modules_not_to_the_catalog() {
    let mut events = distro_module_offered();
    events.push(text("n\n"));
    events.push(Event::Found(vec!["c-tool".to_owned(), "b-tool".to_owned()]));
    events.push(Event::Chosen(vec![1]));
    let (installer, _) = drive(Installer::with_catalog(abc()), events);
    assert_eq!(installer.plan().modules, vec![entry("Module C", "c")]);
}

#[test]
fn a_choice_outside_the_offer_is_not_accepted() {
    let mut events = distro_module_offered();
    events.push(text("y\n"));
    events.push(Event::Found(vec!["a-tool".to_owned()]));
    let (installer, _) = drive(Installer::with_catalog(abc()), events);
    assert!(installer.accepts(&Event::Chosen(vec![0])));
    assert!(installer.accepts(&Event::Chosen(Vec::new())));
    assert!(!installer.accepts(&Event::Chosen(vec![1])));
    assert!(!installer.accepts(&Event::Chosen(vec![0, 3])));
}

#[test]
fn a_selection_that_cannot_be_made_fails_the_run() {
    let mut events = distro_module_offered();
    events.push(text("y\n"));
    events.push(Event::Found(Vec::new()));
    events.push(Event::Failed);
    let (_, effects) = drive(Installer::new(), events);
    assert_eq!(effects.last(), Some(&Effect::Exit(Verdict::Failed)));
}

#[test]
fn an_unconfirmed_plan_ends_the_run_gracefully_with_nothing_done() {
    let mut events = planned();
    events.push(text("no\n"));
    let (installer, effects) = drive(Installer::with_catalog(abc()), events);
    assert_eq!(effects.last(), Some(&Effect::Exit(Verdict::NotConfirmed)));
    assert!(installer.is_over());
    assert!(Verdict::NotConfirmed.is_graceful());
    assert!(!effects.iter().any(is_build_step));
}

#[test]
fn a_first_installation_runs_every_step_in_order() {
    let mut events = planned();
    events.push(text("y\n"));
    events.push(text("/home/ada"));
    events.push(Event::Done);
    events.push(Event::Done);
    events.push(Event::Exited(true));
    events.push(Event::Done);
    events.push(Event::Exited(true));
    events.push(text("/usr/bin:/bin"));
    events.push(Event::Done);
    events.push(Event::Done);
    events.push(Event::Exited(true));
    events.push(Event::Exited(true));
    let (installer, effects) = drive(Installer::with_catalog(abc()), events);
    assert_eq!(
        effects[12..],
        [
            Effect::ReadHome,
            Effect::CreateDirectories("/home/ada/.tmp/darling".to_owned()),
            Effect::CreateDirectories("/home/ada/.local/share/darling".to_owned()),
            Effect::Clone {
                repository: "https://github.com/darling-package-manager/darling.git".to_owned(),
                directory: "/home/ada/.tmp/darling".to_owned(),
            },
            Effect::Rename {
                from: "/home/ada/.tmp/darling/darling".to_owned(),
                to: "/home/ada/.local/share/darling/source".to_owned(),
            },
            Effect::Build { directory: "/home/ada/.local/share/darling/source".to_owned() },
            Effect::ReadSearchPath,
            Effect::SetSearchPath(
                "/usr/bin:/bin:/home/ada/.local/share/darling/source/target/release".to_owned()
            ),
            Effect::Append {
                path: "/home/ada/.bashrc".to_owned(),
                text:
                    "\nexport PATH=\"$PATH:/home/ada/.local/share/darling/source/target/release\"\n"
                        .to_owned(),
            },
            Effect::InstallModule { readable_name: "Arch".to_owned(), name: "arch".to_owned() },
            Effect::InstallModule { readable_name: "Module B".to_owned(), name: "b".to_owned() },
            Effect::Exit(Verdict::Installed),
        ]
    );
    assert_eq!(installer.phase(), Phase::Installed);
    assert!(installer.is_over());
    assert!(Verdict::Installed.is_graceful());
}

#[test]
fn a_reinstallation_removes_the_old_directory_before_it_clones_and_builds() {
    let mut events = vec![
        Event::Resolved(true),
        text("y\n"),
        Event::Done,
        Event::Resolved(true),
        Event::Resolved(true),
        Event::Done,
        text("ID=arch\n"),
        Event::Done,
        text("darling-arch = \"0.1.0\"\n"),
        text("n\n"),
        Event::Found(Vec::new()),
        Event::Chosen(Vec::new()),
        text("y\n"),
        text("/home/ada"),
    ];
    let (installer, effects) = drive(Installer::new(), events.clone());
    assert!(installer.plan().is_reinstallation);
    assert_eq!(
        effects.last(),
        Some(&Effect::RemoveTree("/home/ada/.local/share/darling".to_owned()))
    );
    assert!(!effects.iter().any(|effect| matches!(
        effect,
        Effect::Clone { .. } | Effect::Build { .. } | Effect::CreateDirectories(_)
    )));

    events.push(Event::Done);
    events.push(Event::Done);
    events.push(Event::Done);
    events.push(Event::Exited(true));
    events.push(Event::Done);
    events.push(Event::Exited(true));
    events.push(text("/bin"));
    events.push(Event::Done);
    events.push(Event::Done);
    let (installer, effects) = drive(Installer::new(), events);
    let removal = effects.iter().position(|effect| matches!(effect, Effect::RemoveTree(_)));
    let clone = effects.iter().position(|effect| matches!(effect, Effect::Clone { .. }));
    let build = effects.iter().position(|effect| matches!(effect, Effect::Build { .. }));
    assert!(removal.is_some() && clone.is_some() && build.is_some());
    assert!(removal < clone && clone < build);
    assert_eq!(effects.last(), Some(&Effect::Exit(Verdict::Installed)));
    assert!(installer.is_over());
}

#[test]
fn a_removal_that_fails_is_passed_over() {
    let events = vec![
        Event::Resolved(true),
        text("y\n"),
        Event::Done,
        Event::Resolved(true),
        Event::Resolved(true),
        Event::Done,
        text("ID=arch\n"),
        Event::Done,
        text(""),
        text("y\n"),
        Event::Found(Vec::new()),
        Event::Chosen(Vec::new()),
        text("y\n"),
        text("/home/ada"),
        Event::Failed,
    ];
    let (installer, effects) = drive(Installer::new(), events);
    assert_eq!(
        effects.last(),
        Some(&Effect::CreateDirectories("/home/ada/.tmp/darling".to_owned()))
    );
    assert!(!installer.is_over());
}

#[test]
fn a_first_installation_removes_nothing() {
    let mut events = planned();
    events.push(text("y\n"));
    events.push(text("/home/ada"));
    let (_, effects) = drive(Installer::with_catalog(abc()), events);
    assert_eq!(
        effects.last(),
        Some(&Effect::CreateDirectories("/home/ada/.tmp/darling".to_owned()))
    );
    assert!(!effects.iter().any(|effect| matches!(effect, Effect::RemoveTree(_))));
}

#[test]
fn an_unset_home_fails_the_run() {
    let mut events = planned();
    events.push(text("y\n"));
    events.push(Event::Failed);
    let (_, effects) = drive(Installer::with_catalog(abc()), events);
    assert_eq!(effects.last(), Some(&Effect::Exit(Verdict::Failed)));
    assert!(!effects.iter().any(is_build_step));
}

#[test]
fn a_step_that_fails_ends_the_run() {
    let steps = vec![
        Event::Done,
        Event::Done,
        Event::Exited(true),
        Event::Done,
        Event::Exited(true),
        text("/bin"),
        Event::Done,
        Event::Done,
    ];
    for failing in [0, 1, 2, 3, 4, 5, 7] {
        let mut events = planned();
        events.push(text("y\n"));
        events.push(text("/home/ada"));
        events.extend(steps[..failing].iter().cloned());
        events.push(Event::Failed);
        let (installer, effects) = drive(Installer::with_catalog(abc()), events);
        assert_eq!(effects.last(), Some(&Effect::Exit(Verdict::Failed)), "step {}", failing);
        assert!(installer.is_over());
        assert!(!effects.iter().any(|effect| matches!(effect, Effect::InstallModule { .. })));
    }
}

#[test]
fn a_clone_or_build_that_reports_failure_does_not_stop_the_run() {
    let mut events = planned();
    events.push(text("y\n"));
    events.push(text("/home/ada"));
    events.push(Event::Done);
    events.push(Event::Done);
    events.push(Event::Exited(false));
    let (_, effects) = drive(Installer::with_catalog(abc()), events.clone());
    assert!(matches!(effects.last(), Some(Effect::Rename { .. })));
    events.push(Event::Done);
    events.push(Event::Exited(false));
    let (installer, effects) = drive(Installer::with_catalog(abc()), events);
    assert_eq!(effects.last(), Some(&Effect::ReadSearchPath));
    assert!(!installer.is_over());
}

#[test]
fn a_module_that_fails_is_reported_and_the_next_one_installed() {
    let mut events = planned();
    events.push(text("y\n"));
    events.push(text("/home/ada"));
    events.push(Event::Done);
    events.push(Event::Done);
    events.push(Event::Exited(true));
    events.push(Event::Done);
    events.push(Event::Exited(true));
    events.push(text("/bin"));
    events.push(Event::Done);
    events.push(Event::Done);
    events.push(Event::Failed);
    events.push(Event::Done);
    events.push(Event::Failed);
    events.push(Event::Done);
    let (installer, effects) = drive(Installer::with_catalog(abc()), events);
    assert_eq!(
        effects[21..],
        [
            Effect::InstallModule { readable_name: "Arch".to_owned(), name: "arch".to_owned() },
            Effect::Say(Notice::ModuleFailed("arch".to_owned())),
            Effect::InstallModule { readable_name: "Module B".to_owned(), name: "b".to_owned() },
            Effect::Say(Notice::ModuleFailed("b".to_owned())),
            Effect::Exit(Verdict::Installed),
        ]
    );
    assert_eq!(installer.phase(), Phase::Installed);
}

#[test]
fn a_module_whose_installation_reports_failure_is_not_reported() {
    let mut events = planned();
    events.push(text("y\n"));
    events.push(text("/home/ada"));
    events.push(Event::Done);
    events.push(Event::Done);
    events.push(Event::Exited(true));
    events.push(Event::Done);
    events.push(Event::Exited(true));
    events.push(text("/bin"));
    events.push(Event::Done);
    events.push(Event::Done);
    events.push(Event::Exited(false));
    let (_, effects) = drive(Installer::with_catalog(abc()), events);
    assert_eq!(
        effects.last(),
        Some(&Effect::InstallModule { readable_name: "Module B".to_owned(), name: "b".to_owned() })
    );
}

#[test]
fn an_empty_plan_installs_darling_alone() {
    let mut events = distro_module_offered();
    events.push(text("n\n"));
    events.push(Event::Found(Vec::new()));
    events.push(Event::Chosen(Vec::new()));
    events.push(text("y\n"));
    events.push(text("/home/ada"));
    events.push(Event::Done);
    events.push(Event::Done);
    events.push(Event::Exited(true));
    events.push(Event::Done);
    events.push(Event::Exited(true));
    events.push(text("/bin"));
    events.push(Event::Done);
    events.push(Event::Done);
    let (installer, effects) = drive(Installer::new(), events);
    assert_eq!(effects.last(), Some(&Effect::Exit(Verdict::Installed)));
    assert!(installer.plan().modules.is_empty());
    assert!(!effects.iter().any(|effect| matches!(effect, Effect::InstallModule { .. })));
}

#[test]
fn only_the_outcome_of_the_pending_effect_is_accepted() {
    let installer = Installer::new();
    assert!(installer.accepts(&Event::Resolved(true)));
    assert!(installer.accepts(&Event::Resolved(false)));
    assert!(!installer.accepts(&Event::Done));
    assert!(!installer.accepts(&Event::Failed));
    assert!(!installer.accepts(&text("y")));
    assert!(!installer.accepts(&Event::Exited(true)));
    assert!(!installer.accepts(&Event::Found(Vec::new())));
    assert!(!installer.accepts(&Event::Chosen(Vec::new())));

    let installer = installer.advance(Event::Resolved(true));
    assert!(installer.accepts(&text("y")));
    assert!(installer.accepts(&Event::Failed));
    assert!(!installer.accepts(&Event::Resolved(true)));
    assert!(!installer.accepts(&Event::Done));
}

#[test]
fn a_run_that_is_over_accepts_nothing() {
    let (installer, _) = drive(Installer::new(), vec![Event::Resolved(true), text("n")]);
    assert!(installer.is_over());
    for event in [
        Event::Resolved(true),
        Event::Done,
        Event::Failed,
        Event::Exited(true),
        text("y"),
        Event::Found(Vec::new()),
        Event::Chosen(Vec::new()),
    ] {
        assert!(!installer.accepts(&event));
    }
    assert_eq!(installer.pending(), Effect::Exit(Verdict::ReinstallDeclined));
}

#[test]
fn a_notice_that_cannot_be_given_fails_the_run() {
    let (_, effects) = drive(Installer::new(), vec![Event::Resolved(false), Event::Failed]);
    assert_eq!(effects.last(), Some(&Effect::Exit(Verdict::Failed)));

    let mut events = requirements_met();
    events.pop();
    events.push(Event::Failed);
    let (_, effects) = drive(Installer::new(), events);
    assert_eq!(effects.last(), Some(&Effect::Exit(Verdict::Failed)));

    let mut events = requirements_met();
    events.push(text("ID=arch\n"));
    events.push(Event::Failed);
    let (installer, effects) = drive(Installer::new(), events);
    assert_eq!(effects.last(), Some(&Effect::Exit(Verdict::Failed)));
    assert!(installer.is_over());
}

#[test]
fn probes_and_scans_cannot_fail() {
    let installer = Installer::new();
    assert!(!installer.accepts(&Event::Failed));
    let (installer, _) = drive(installer, vec![Event::Resolved(false), Event::Done]);
    assert_eq!(installer.phase(), Phase::Requiring(0));
    assert!(!installer.accepts(&Event::Failed));
    let mut events = distro_module_offered();
    events.push(text("y\n"));
    let (installer, _) = drive(Installer::new(), events);
    assert_eq!(installer.phase(), Phase::Scanning);
    assert!(!installer.accepts(&Event::Failed));
    assert!(installer.accepts(&Event::Found(Vec::new())));
}

#[test]
fn an_ordinary_release_file_leads_to_the_search_for_its_distribution() {
    let mut events = requirements_met();
    events.push(text("NAME=\"Ubuntu\"\nVERSION_ID=\"22.04\"\nID=ubuntu\nID_LIKE=debian\n"));
    events.push(Event::Done);
    let (_, effects) = drive(Installer::new(), events);
    assert_eq!(
        effects[6..],
        [
            Effect::Say(Notice::Distribution("ubuntu".to_owned())),
            Effect::Search("darling-ubuntu".to_owned()),
        ]
    );
}

#[test]
fn a_release_file_with_other_identifiers_only_ends_the_run_gracefully() {
    let mut events = requirements_met();
    events.push(text("NAME=Foo\nVERSION_ID=22.04\nBUILD_ID=rolling\n"));
    let (installer, effects) = drive(Installer::new(), events);
    assert_eq!(effects.last(), Some(&Effect::Exit(Verdict::NoDistribution)));
    assert!(installer.is_over());
    assert!(!effects.iter().any(|effect| matches!(effect, Effect::Search(_))));
    assert!(!effects.iter().any(is_build_step));
}
