use clap::ArgMatches;
use leeca_core::command::{configure_all, find_command, handle_all, BaseCommand};
use leeca_core::error::{BaseError, BaseResult};
use leeca_core::settings::Settings;

/// A command whose handler reports back which command ran, so a test
/// can observe exactly which handler dispatch invoked.
struct TagCommand {
    name: &'static str,
    tag: &'static str,
}

impl BaseCommand for TagCommand {
    // Ghost members: erased at runtime, never callable from here.
    fn spec_name(&self) -> vstd::seq::Seq<char> {
        unreachable!()
    }

    fn handle_obeys(&self, _r: BaseResult<()>) -> bool {
        unreachable!()
    }

    fn name(&self) -> &'static str {
        self.name
    }

    fn about(&self) -> &'static str {
        "a tagged command"
    }

    fn handle(&self, _matches: &ArgMatches, _settings: &Settings) -> BaseResult<()> {
        Err(BaseError::EnvError(self.tag.to_string()))
    }
}

fn registry() -> Vec<Box<dyn BaseCommand>> {
    vec![
        Box::new(TagCommand { name: "alpha", tag: "ran-alpha" }),
        Box::new(TagCommand { name: "beta", tag: "ran-beta" }),
        Box::new(TagCommand { name: "gamma", tag: "ran-gamma" }),
    ]
}

fn parsed(root: clap::Command, args: &[&str]) -> ArgMatches {
    root.try_get_matches_from(args).expect("arguments should parse")
}

#[test]
fn dispatch_invokes_exactly_the_named_command() {
    let root = configure_all("app", "test app", registry());
    let matches = parsed(root, &["app", "beta"]);
    let result = handle_all(&matches, registry(), &Settings::default());
    assert!(matches!(result, Err(BaseError::EnvError(tag)) if tag == "ran-beta"));
}

#[test]
fn dispatch_invokes_first_and_last_commands() {
    let settings = Settings::default();
    let m = parsed(configure_all("app", "test app", registry()), &["app", "alpha"]);
    let r = handle_all(&m, registry(), &settings);
    assert!(matches!(r, Err(BaseError::EnvError(tag)) if tag == "ran-alpha"));
    let m = parsed(configure_all("app", "test app", registry()), &["app", "gamma"]);
    let r = handle_all(&m, registry(), &settings);
    assert!(matches!(r, Err(BaseError::EnvError(tag)) if tag == "ran-gamma"));
}

#[test]
fn dispatch_without_subcommand_succeeds_without_invoking_any_handler() {
    let root = clap::Command::new("app").subcommand(clap::Command::new("alpha"));
    let matches = parsed(root, &["app"]);
    let result = handle_all(&matches, registry(), &Settings::default());
    assert!(matches!(result, Ok(())));
}

#[test]
fn dispatch_of_unregistered_subcommand_fails_with_command_error() {
    let root = clap::Command::new("app").subcommand(clap::Command::new("ghost"));
    let matches = parsed(root, &["app", "ghost"]);
    let result = handle_all(&matches, registry(), &Settings::default());
    assert!(matches!(result, Err(BaseError::CommandError(msg)) if msg == "Unknown command: ghost"));
}

#[test]
fn dispatch_with_duplicate_names_invokes_the_first_match() {
    let commands: Vec<Box<dyn BaseCommand>> = vec![
        Box::new(TagCommand { name: "dup", tag: "ran-first" }),
        Box::new(TagCommand { name: "dup", tag: "ran-second" }),
    ];
    let root = clap::Command::new("app").subcommand(clap::Command::new("dup"));
    let matches = parsed(root, &["app", "dup"]);
    let result = handle_all(&matches, commands, &Settings::default());
    assert!(matches!(result, Err(BaseError::EnvError(tag)) if tag == "ran-first"));
}

#[test]
fn find_command_returns_first_matching_position() {
    let commands = registry();
    assert_eq!(find_command(&commands, "alpha"), Some(0));
    assert_eq!(find_command(&commands, "gamma"), Some(2));
    assert_eq!(find_command(&commands, "delta"), None);
    assert_eq!(find_command(&commands, "Alpha"), None);
}

#[test]
fn configure_all_registers_every_subcommand_in_order() {
    let root = configure_all("app", "test app", registry());
    assert_eq!(root.get_name(), "app");
    assert_eq!(root.get_about().map(|a| a.to_string()), Some("test app".to_string()));
    let names: Vec<String> =
        root.get_subcommands().map(|c| c.get_name().to_string()).collect();
    assert_eq!(names, vec!["alpha".to_string(), "beta".to_string(), "gamma".to_string()]);
    assert!(root.is_arg_required_else_help_set());
}

#[test]
fn configured_root_rejects_bare_invocation() {
    let root = configure_all("app", "test app", registry());
    assert!(root.try_get_matches_from(vec!["app"]).is_err());
}

#[test]
fn empty_registry_still_yields_a_valid_root() {
    let root = configure_all("app", "test app", Vec::new());
    assert_eq!(root.get_name(), "app");
    assert_eq!(root.get_subcommands().count(), 0);
    assert!(root.is_arg_required_else_help_set());
    assert!(root.try_get_matches_from(vec!["app"]).is_err());
}

#[test]
fn empty_registry_dispatch_succeeds_bare_and_rejects_any_name() {
    let settings = Settings::default();
    let bare = parsed(clap::Command::new("app"), &["app"]);
    assert!(matches!(handle_all(&bare, Vec::new(), &settings), Ok(())));
    let root = clap::Command::new("app").subcommand(clap::Command::new("anything"));
    let named = parsed(root, &["app", "anything"]);
    let result = handle_all(&named, Vec::new(), &settings);
    assert!(
        matches!(result, Err(BaseError::CommandError(msg)) if msg == "Unknown command: anything")
    );
}

#[test]
fn default_configure_surfaces_name_and_about() {
    let cmd = TagCommand { name: "solo", tag: "ran-solo" };
    let spec = cmd.configure();
    assert_eq!(spec.get_name(), "solo");
    assert_eq!(spec.get_about().map(|a| a.to_string()), Some("a tagged command".to_string()));
}
