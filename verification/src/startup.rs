//! What the service does when it is started, as its command line asks.

use vstd::prelude::*;
use crate::arguments_parser::find_argument;
use crate::arguments_parser::ArgumentView;
use crate::arguments_parser::ArgumentsParser;
use crate::text::text_equals;

verus! {

/// Where the configuration is read from and written to unless the command
/// line says otherwise.
pub const DEFAULT_CONFIG_PATH: &'static str = "data/config.json";

/// An argument that the service understands.
pub struct ArgumentDescription {
    /// The name, without the two dashes in front of it.
    pub name: &'static str,
    /// How the argument is written.
    pub syntax: &'static str,
    /// What the argument does.
    pub description: &'static str,
}

/// What the service does when it is started.
pub enum StartupAction {
    /// Names the arguments that are not understood, and nothing else.
    RejectArguments(Vec<String>),
    /// Prints how the service is used.
    PrintHelp,
    /// Writes the default configuration to this path.
    GenerateDefaultConfig(String),
    /// Reads the configuration at this path and serves.
    Run(String),
}

/// A `StartupAction` over plain text.
pub enum StartupPlan {
    RejectArguments(Seq<Seq<char>>),
    PrintHelp,
    GenerateDefaultConfig(Seq<char>),
    Run(Seq<char>),
}

impl View for StartupAction {
    type V = StartupPlan;

    open spec fn view(&self) -> StartupPlan {
        match self {
            StartupAction::RejectArguments(names) => StartupPlan::RejectArguments(
                names.deep_view(),
            ),
            StartupAction::PrintHelp => StartupPlan::PrintHelp,
            StartupAction::GenerateDefaultConfig(path) => StartupPlan::GenerateDefaultConfig(
                path@,
            ),
            StartupAction::Run(path) => StartupPlan::Run(path@),
        }
    }
}

/// The names that the service understands.
pub open spec fn is_known(name: Seq<char>) -> bool {
    ||| name == "help"@
    ||| name == "config"@
    ||| name == "generate-default-config"@
}

/// Those of `names` that the service does not understand, in order.
pub open spec fn unknown_among(names: Seq<Seq<char>>) -> Seq<Seq<char>>
    decreases names.len(),
{
    if names.len() == 0 {
        Seq::empty()
    } else if is_known(names.last()) {
        unknown_among(names.drop_last())
    } else {
        unknown_among(names.drop_last()).push(names.last())
    }
}

/// Where the configuration is read from: the value of `config`, or the
/// default path where that argument or its value is missing.
pub open spec fn config_path_of(arguments: Seq<ArgumentView>) -> Seq<char> {
    match find_argument(arguments, "config"@) {
        Some(argument) => match argument.value {
            Some(path) => path,
            None => DEFAULT_CONFIG_PATH@,
        },
        None => DEFAULT_CONFIG_PATH@,
    }
}

/// What the arguments ask for. Unknown arguments come before everything
/// else, then `help`, then `generate-default-config`.
pub open spec fn startup_plan(arguments: Seq<ArgumentView>) -> StartupPlan {
    let unknown = unknown_among(arguments.map_values(|argument: ArgumentView| argument.name));
    if unknown.len() > 0 {
        StartupPlan::RejectArguments(unknown)
    } else if find_argument(arguments, "help"@) is Some {
        StartupPlan::PrintHelp
    } else if find_argument(arguments, "generate-default-config"@) is Some {
        StartupPlan::GenerateDefaultConfig(DEFAULT_CONFIG_PATH@)
    } else {
        StartupPlan::Run(config_path_of(arguments))
    }
}

/// Lists the arguments that the service understands, for its help text.
pub fn known_arguments() -> (list: Vec<ArgumentDescription>)
    ensures
        list.len() == 3,
        list[0].name@ == "help"@,
        list[1].name@ == "config"@,
        list[2].name@ == "generate-default-config"@,
        forall|i: int| 0 <= i < list.len() ==> is_known(#[trigger] list[i].name@),
{
    let mut list: Vec<ArgumentDescription> = Vec::new();
    list.push(
        ArgumentDescription {
            name: "help",
            syntax: "help",
            description: "Print this help message",
        },
    );
    list.push(
        ArgumentDescription {
            name: "config",
            syntax: "config <path>",
            description: "Set path to the config file",
        },
    );
    list.push(
        ArgumentDescription {
            name: "generate-default-config",
            syntax: "generate-default-config",
            description: "Generate default config file",
        },
    );
    list
}

fn name_is_known(name: &str) -> (known: bool)
    ensures
        known == is_known(name@),
{
    text_equals(name, "help") || text_equals(name, "config") || text_equals(
        name,
        "generate-default-config",
    )
}

/// Decides what the service does with the arguments it was started with.
pub fn startup_action(arguments: &ArgumentsParser) -> (action: StartupAction)
    ensures
        action@ == startup_plan(arguments@),
{
    let names = arguments.names();
    let ghost all = names.deep_view();
    let mut unknown: Vec<String> = Vec::new();
    let mut i: usize = 0;
    assert(all.take(0) =~= Seq::<Seq<char>>::empty());
    assert(unknown.deep_view() =~= Seq::<Seq<char>>::empty());
    while i < names.len()
        invariant
            i <= names.len(),
            all == names.deep_view(),
            unknown.deep_view() == unknown_among(all.take(i as int)),
        decreases names.len() - i,
    {
        assert(all.take(i + 1).drop_last() =~= all.take(i as int));
        assert(all.take(i + 1).last() == names[i as int]@);
        if !name_is_known(names[i].as_str()) {
            let ghost listed = unknown.deep_view();
            unknown.push(names[i].clone());
            assert(unknown.deep_view() =~= listed.push(names[i as int]@));
        }
        i = i + 1;
    }
    assert(all.take(names.len() as int) =~= all);
    if unknown.len() > 0 {
        StartupAction::RejectArguments(unknown)
    } else if arguments.has_argument("help") {
        StartupAction::PrintHelp
    } else if arguments.has_argument("generate-default-config") {
        StartupAction::GenerateDefaultConfig(DEFAULT_CONFIG_PATH.to_owned())
    } else {
        match arguments.get_value("config") {
            Some(path) => StartupAction::Run(path),
            None => StartupAction::Run(DEFAULT_CONFIG_PATH.to_owned()),
        }
    }
}

} // verus!
