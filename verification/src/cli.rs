//! What the command line asks for, and the usage text.

use vstd::prelude::*;
use crate::text::{joined, str_eq, starts_with_char};

verus! {

/// The operation that the command line selects.
#[derive(Debug, Clone, PartialEq, Eq)]
pub enum Command {
    /// `--install`: deploy the binary and register the background service.
    Install,
    /// `--uninstall`: stop the service and remove what installing created.
    Uninstall,
    /// `config`: write the configuration interactively.
    Configure,
    /// `--help` or `-h`: print the usage text.
    Help,
    /// `--status`: send a report of the current vitals once.
    Status,
    /// An unknown flag, or `uninstall` without dashes.
    Invalid(String),
    /// Monitor, with the webhook URL given as first argument if any.
    Run(Option<String>),
}

/// A command as character sequences.
pub enum CommandView {
    Install,
    Uninstall,
    Configure,
    Help,
    Status,
    Invalid(Seq<char>),
    Run(Option<Seq<char>>),
}

impl View for Command {
    type V = CommandView;

    open spec fn view(&self) -> CommandView {
        match self {
            Command::Install => CommandView::Install,
            Command::Uninstall => CommandView::Uninstall,
            Command::Configure => CommandView::Configure,
            Command::Help => CommandView::Help,
            Command::Status => CommandView::Status,
            Command::Invalid(a) => CommandView::Invalid(a@),
            Command::Run(u) => CommandView::Run(
                match u {
                    Some(s) => Some(s@),
                    None => None,
                },
            ),
        }
    }
}

/// The command that a first argument names, where there is one.
pub open spec fn command_for(arg: Seq<char>) -> CommandView {
    if arg == "--install"@ {
        CommandView::Install
    } else if arg == "--uninstall"@ {
        CommandView::Uninstall
    } else if arg == "config"@ {
        CommandView::Configure
    } else if arg == "--help"@ || arg == "-h"@ {
        CommandView::Help
    } else if arg == "--status"@ {
        CommandView::Status
    } else if (arg.len() > 0 && arg[0] == '-') || arg == "uninstall"@ {
        CommandView::Invalid(arg)
    } else {
        CommandView::Run(Some(arg))
    }
}

/// The command that the arguments select; the first of them is the program name.
pub open spec fn parsed_command(args: Seq<Seq<char>>) -> CommandView {
    if args.len() > 1 {
        command_for(args[1])
    } else {
        CommandView::Run(None)
    }
}

/// The command that `args` select; `args[0]` is the program name.
pub fn parse_command(args: &Vec<String>) -> (r: Command)
    ensures
        r@ == parsed_command(args@.map_values(|a: String| a@)),
{
    let ghost views = args@.map_values(|a: String| a@);
    if args.len() <= 1 {
        return Command::Run(None);
    }
    let arg = args[1].as_str();
    assert(views[1] == arg@);
    if str_eq(arg, "--install") {
        Command::Install
    } else if str_eq(arg, "--uninstall") {
        Command::Uninstall
    } else if str_eq(arg, "config") {
        Command::Configure
    } else if str_eq(arg, "--help") || str_eq(arg, "-h") {
        Command::Help
    } else if str_eq(arg, "--status") {
        Command::Status
    } else if starts_with_char(arg, '-') || str_eq(arg, "uninstall") {
        Command::Invalid(String::from_str(arg))
    } else {
        Command::Run(Some(String::from_str(arg)))
    }
}

/// The line printed on standard error for an unknown option.
pub fn unknown_option_message(arg: &str) -> (r: String)
    ensures
        r@ == "[x] Error: Unknown option flag or command '"@ + arg@ + "'."@,
{
    let mut s = joined("[x] Error: Unknown option flag or command '", arg);
    s.append("'.");
    s
}

/// The usage text.
pub open spec fn help_text_spec() -> Seq<char> {
    "Sentinel Resource Monitor\nUsage:\n  sentinel [webhook_url]   Run manually using a direct webhook URL\n  sentinel [command]       Execute utility operations\n\nCommands:\n  config                   Configure webhook URL and thresholds interactively\n  --status                 Collect current vitals and push an on-demand report to Discord\n  --install                Auto-detect init framework and deploy background service (requires 'sudo')\n  --uninstall              Strip service configurations and remove sentinel paths (requires 'sudo')\n  --help                   Display execution options and flags\n"@
}

/// The usage text, each line ended by a newline.
pub fn help_text() -> (r: String)
    ensures
        r@ == help_text_spec(),
{
    String::from_str(
        "Sentinel Resource Monitor\nUsage:\n  sentinel [webhook_url]   Run manually using a direct webhook URL\n  sentinel [command]       Execute utility operations\n\nCommands:\n  config                   Configure webhook URL and thresholds interactively\n  --status                 Collect current vitals and push an on-demand report to Discord\n  --install                Auto-detect init framework and deploy background service (requires 'sudo')\n  --uninstall              Strip service configurations and remove sentinel paths (requires 'sudo')\n  --help                   Display execution options and flags\n",
    )
}

/// The hint printed after an unknown option.
pub fn help_hint() -> (r: &'static str)
    ensures
        r@ == "Run 'sentinel --help' to see valid operations."@,
{
    "Run 'sentinel --help' to see valid operations."
}

/// An argument that begins with a dash is never taken for a webhook URL.
pub proof fn dashed_argument_is_never_a_webhook(arg: Seq<char>)
    requires
        arg.len() > 0,
        arg[0] == '-',
    ensures
        !(command_for(arg) is Run),
{
}

/// Each command is selected by its own names and by nothing else: `--install`,
/// `--uninstall`, `config`, `--help` or `-h`, and `--status`. Any other
/// argument that begins with a dash, and `uninstall`, is refused as itself;
/// every remaining argument is taken as the webhook URL.
pub proof fn commands_follow_their_names(arg: Seq<char>)
    ensures
        command_for(arg) is Install <==> arg == "--install"@,
        command_for(arg) is Uninstall <==> arg == "--uninstall"@,
        command_for(arg) is Configure <==> arg == "config"@,
        command_for(arg) is Help <==> (arg == "--help"@ || arg == "-h"@),
        command_for(arg) is Status <==> arg == "--status"@,
        command_for(arg) matches CommandView::Invalid(a) ==> a == arg && ((arg.len() > 0 && arg[0]
            == '-') || arg == "uninstall"@),
        command_for(arg) matches CommandView::Run(u) ==> u == Some(arg) && !(arg.len() > 0 && arg[0]
            == '-') && arg != "uninstall"@,
        (arg.len() > 0 && arg[0] == '-') ==> !(command_for(arg) is Run),
{
    reveal_strlit("--install");
    reveal_strlit("--uninstall");
    reveal_strlit("config");
    reveal_strlit("--help");
    reveal_strlit("-h");
    reveal_strlit("--status");
    reveal_strlit("uninstall");
    assert("--install"@.len() == 9);
    assert("--uninstall"@.len() == 11);
    assert("config"@.len() == 6);
    assert("--help"@.len() == 6);
    assert("-h"@.len() == 2);
    assert("--status"@.len() == 8);
    assert("uninstall"@.len() == 9);
    assert("--install"@[0] == '-');
    assert("--uninstall"@[0] == '-');
    assert("--help"@[0] == '-');
    assert("-h"@[0] == '-');
    assert("--status"@[0] == '-');
    assert("config"@[0] != "--help"@[0]);
    assert("uninstall"@[0] != "--install"@[0]);
}

} // verus!
