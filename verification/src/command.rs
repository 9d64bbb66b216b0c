//! The command registry and dispatcher: a root command is built from an
//! ordered list of command implementations, and a parsed invocation is
//! dispatched to the first registered command bearing the invoked name.

use crate::error::{BaseError, BaseResult};
use crate::settings::Settings;
use vstd::prelude::*;
use vstd::string::StringExecFns;

verus! {

/// `clap::Command` is the command-line specification the registry
/// assembles; the library reads it only through the spec functions below.
#[verifier::external_type_specification]
#[verifier::external_body]
pub struct ExCommand(clap::Command);

/// `clap::ArgMatches` is a parsed invocation; the library reads only
/// which subcommand it names, and hands it on to handlers otherwise.
#[verifier::external_type_specification]
#[verifier::external_body]
pub struct ExArgMatches(clap::ArgMatches);

/// The identifier a command specification is dispatched under.
pub uninterp spec fn cmd_name_of(c: clap::Command) -> Seq<char>;

/// The about text a command specification carries, where one was set.
pub uninterp spec fn cmd_about_of(c: clap::Command) -> Option<Seq<char>>;

/// The names of the subcommand entries a command specification holds,
/// in registration order.
pub uninterp spec fn cmd_sub_names(c: clap::Command) -> Seq<Seq<char>>;

/// Whether the specification makes a bare invocation display help
/// rather than silently succeed.
pub uninterp spec fn cmd_requires_args(c: clap::Command) -> bool;

/// The subcommand name a parsed invocation carries, if it names one.
pub uninterp spec fn invoked_sub(m: clap::ArgMatches) -> Option<Seq<char>>;

/// Relies on clap's `Command::new`: a fresh specification named `name`,
/// with no about text, no subcommands, and no argument requirement.
#[verifier::external_body]
fn new_command(name: &'static str) -> (r: clap::Command)
    ensures
        cmd_name_of(r) == name@,
        cmd_about_of(r) is None,
        cmd_sub_names(r) == Seq::<Seq<char>>::empty(),
        !cmd_requires_args(r),
{
    clap::Command::new(name)
}

/// Relies on clap's `Command::about`: sets the about text and changes
/// nothing else of the specification.
#[verifier::external_body]
fn with_about(c: clap::Command, about: &'static str) -> (r: clap::Command)
    ensures
        cmd_name_of(r) == cmd_name_of(c),
        cmd_about_of(r) == Some(about@),
        cmd_sub_names(r) == cmd_sub_names(c),
        cmd_requires_args(r) == cmd_requires_args(c),
{
    c.about(about)
}

/// Relies on clap's `Command::subcommand`: appends one subcommand entry
/// and changes nothing else of the specification.
#[verifier::external_body]
fn with_subcommand(c: clap::Command, sub: clap::Command) -> (r: clap::Command)
    ensures
        cmd_name_of(r) == cmd_name_of(c),
        cmd_about_of(r) == cmd_about_of(c),
        cmd_sub_names(r) == cmd_sub_names(c).push(cmd_name_of(sub)),
        cmd_requires_args(r) == cmd_requires_args(c),
{
    c.subcommand(sub)
}

/// Relies on clap's `Command::arg_required_else_help`: turns on the
/// flag that shows help when no argument is given, and changes nothing
/// else of the specification.
#[verifier::external_body]
fn with_arg_required_else_help(c: clap::Command) -> (r: clap::Command)
    ensures
        cmd_name_of(r) == cmd_name_of(c),
        cmd_about_of(r) == cmd_about_of(c),
        cmd_sub_names(r) == cmd_sub_names(c),
        cmd_requires_args(r),
{
    c.arg_required_else_help(true)
}

/// Relies on clap's `ArgMatches::subcommand`: the name of the
/// subcommand used at invocation together with its captured matches,
/// or `None` where the invocation named no subcommand.
#[verifier::external_body]
fn subcommand_of<'a>(m: &'a clap::ArgMatches) -> (r: Option<(String, &'a clap::ArgMatches)>)
    ensures
        r is Some <==> invoked_sub(*m) is Some,
        r matches Some(p) ==> invoked_sub(*m) == Some(p.0@),
{
    match m.subcommand() {
        None => None,
        Some((name, sub)) => Some((name.to_owned(), sub)),
    }
}

/// A trait that defines the basic behavior for commands.
pub trait BaseCommand {
    /// The name this command dispatches under, at the specification level.
    spec fn spec_name(&self) -> Seq<char>;

    /// Get the name of the command: a stable identifier, unique across
    /// all registered commands.
    fn name(&self) -> (r: &'static str)
        ensures
            r@ == self.spec_name(),
    ;

    /// Get the about message for the command.
    fn about(&self) -> (r: &'static str);

    /// The relation an implementation promises of every result its
    /// handler returns; dispatch passes a handler's result through
    /// unchanged, so whatever an implementation states here holds of
    /// what dispatch returns for it.
    spec fn handle_obeys(&self, r: BaseResult<()>) -> bool;

    /// Handle the command execution, given the parsed sub-invocation
    /// and the loaded settings.
    fn handle(&self, matches: &clap::ArgMatches, settings: &Settings) -> (r: BaseResult<()>)
        ensures
            self.handle_obeys(r),
    ;

    /// Configure the command: build its command-line specification. An
    /// implementation may extend the surface, but the specification
    /// must keep `name()` as its identifier for dispatch to work.
    fn configure(&self) -> (r: clap::Command)
        ensures
            cmd_name_of(r) == self.spec_name(),
    {
        with_about(new_command(self.name()), self.about())
    }
}

/// Whether no registered command bears `name`.
pub open spec fn no_match(cmds: Seq<Box<dyn BaseCommand>>, name: Seq<char>) -> bool {
    forall|j: int| 0 <= j < cmds.len() ==> cmds[j].spec_name() != name
}

/// Whether position `i` holds the first registered command named `name`.
pub open spec fn first_match(cmds: Seq<Box<dyn BaseCommand>>, name: Seq<char>, i: int) -> bool {
    &&& 0 <= i < cmds.len()
    &&& cmds[i].spec_name() == name
    &&& forall|j: int| 0 <= j < i ==> cmds[j].spec_name() != name
}

/// Whether all registered command names are pairwise distinct.
pub open spec fn distinct_names(cmds: Seq<Box<dyn BaseCommand>>) -> bool {
    forall|i: int, j: int|
        0 <= i < cmds.len() && 0 <= j < cmds.len() && i != j
            ==> cmds[i].spec_name() != cmds[j].spec_name()
}

/// Whether `r` is the failure reported for an unrecognized subcommand
/// `name`: a `CommandError` whose message embeds the name.
pub open spec fn is_unknown_command_error(r: BaseResult<()>, name: Seq<char>) -> bool {
    r matches Err(BaseError::CommandError(m)) && m@ == "Unknown command: "@ + name
}

/// Find the position of the first registered command whose name equals
/// `name` exactly, scanning in registration order.
pub fn find_command(commands: &Vec<Box<dyn BaseCommand>>, name: &str) -> (r: Option<usize>)
    ensures
        match r {
            Some(i) => first_match(commands@, name@, i as int),
            None => no_match(commands@, name@),
        },
{
    let mut idx: usize = 0;
    while idx < commands.len()
        invariant
            idx <= commands@.len(),
            forall|j: int| 0 <= j < idx ==> commands@[j].spec_name() != name@,
        decreases commands@.len() - idx,
    {
        if name.to_owned() == commands[idx].name().to_owned() {
            return Some(idx);
        }
        idx += 1;
    }
    None
}

/// Configure all commands: build the root specification, registering
/// one subcommand entry per command, in list order, and require an
/// explicit invocation rather than a silent bare success.
pub fn configure_all(
    root_name: &'static str,
    root_about: &'static str,
    commands: Vec<Box<dyn BaseCommand>>,
) -> (r: clap::Command)
    ensures
        cmd_name_of(r) == root_name@,
        cmd_about_of(r) == Some(root_about@),
        cmd_sub_names(r).len() == commands@.len(),
        forall|i: int|
            0 <= i < commands@.len() ==> cmd_sub_names(r)[i] == commands@[i].spec_name(),
        cmd_requires_args(r),
{
    let mut root_command = with_about(new_command(root_name), root_about);
    let mut idx: usize = 0;
    while idx < commands.len()
        invariant
            idx <= commands@.len(),
            cmd_name_of(root_command) == root_name@,
            cmd_about_of(root_command) == Some(root_about@),
            cmd_sub_names(root_command).len() == idx,
            forall|i: int|
                0 <= i < idx ==> cmd_sub_names(root_command)[i] == commands@[i].spec_name(),
        decreases commands@.len() - idx,
    {
        root_command = with_subcommand(root_command, commands[idx].configure());
        idx += 1;
    }
    with_arg_required_else_help(root_command)
}

/// Handle the execution of all commands: a parsed invocation naming no
/// subcommand succeeds trivially; one naming an unregistered subcommand
/// fails with a `CommandError` embedding the name; otherwise the first
/// registered command bearing the invoked name handles the invocation,
/// and its result is returned unchanged, so it satisfies whatever that
/// command promises of its handler's results. The three cases cover
/// every invocation: dispatch itself constructs an error only for an
/// unregistered name.
pub fn handle_all(
    matches: &clap::ArgMatches,
    commands: Vec<Box<dyn BaseCommand>>,
    settings: &Settings,
) -> (r: BaseResult<()>)
    ensures
        invoked_sub(*matches) is None ==> r == BaseResult::<()>::Ok(()),
        forall|n: Seq<char>|
            invoked_sub(*matches) == Some(n) && no_match(commands@, n)
                ==> is_unknown_command_error(r, n),
        forall|n: Seq<char>, i: int|
            invoked_sub(*matches) == Some(n) && #[trigger] first_match(commands@, n, i)
                ==> commands@[i].handle_obeys(r),
{
    match subcommand_of(matches) {
        None => Ok(()),
        Some((cmd_name, sub_matches)) => {
            match find_command(&commands, cmd_name.as_str()) {
                Some(i) => {
                    let r = commands[i].handle(sub_matches, settings);
                    proof {
                        assert forall|n: Seq<char>, j: int|
                            invoked_sub(*matches) == Some(n) && #[trigger] first_match(
                                commands@,
                                n,
                                j,
                            ) implies commands@[j].handle_obeys(r) by {
                            assert(commands@[j].spec_name() == n);
                            assert(commands@[i as int].spec_name() == n);
                            assert(j == i as int);
                        };
                    }
                    r
                },
                None => Err(BaseError::CommandError(
                    "Unknown command: ".to_owned().concat(cmd_name.as_str()),
                )),
            }
        },
    }
}

/// Law: in a registry whose names are pairwise distinct, the command
/// named `name` at position `i` is the one and only dispatch match, so
/// dispatching an invocation naming it invokes exactly its handler.
pub proof fn lemma_dispatch_selects_named(
    cmds: Seq<Box<dyn BaseCommand>>,
    name: Seq<char>,
    i: int,
)
    requires
        distinct_names(cmds),
        0 <= i < cmds.len(),
        cmds[i].spec_name() == name,
    ensures
        first_match(cmds, name, i),
        forall|k: int| first_match(cmds, name, k) ==> k == i,
{
}

/// Law: an empty registry matches no subcommand name, so dispatching
/// any named invocation against it reports an unknown command.
pub proof fn lemma_empty_registry_matches_nothing(
    cmds: Seq<Box<dyn BaseCommand>>,
    name: Seq<char>,
)
    requires
        cmds.len() == 0,
    ensures
        no_match(cmds, name),
{
}

} // verus!
