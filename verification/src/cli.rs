use vstd::prelude::*;
use vstd::string::StringExecFns;

verus! {

/// Errors of the command line tool.
#[derive(Debug)]
pub enum CliError {
    Other(String),
}

/// The shells for which completions can be generated.
#[derive(PartialEq, Eq, Structural, Clone, Copy, Debug)]
pub enum CompletionShell {
    Bash,
    Zsh,
    Fish,
}

/// Transaction sub-commands.
#[derive(PartialEq, Eq, Structural, Clone, Copy, Debug)]
pub enum TransactionCommand {
    List,
    Search,
    Get,
}

/// Settlement sub-commands.
#[derive(PartialEq, Eq, Structural, Clone, Copy, Debug)]
pub enum SettlementCommand {
    List,
    Get,
}

/// The commands of the tool; none given means a health check.
pub enum Command {
    Health,
    Transactions(TransactionCommand),
    Settlements(SettlementCommand),
    Completions { shell: String },
}

/// What running a command amounts to.
pub enum CliAction {
    /// Print this line on standard output.
    Print(String),
    /// Write completions for this shell on standard output.
    GenerateCompletions(CompletionShell),
}

/// The message printed for a health check.
pub open spec fn health_text() -> Seq<char> {
    "✓ Health check passed"@
}

/// The message printed for a transaction sub-command.
pub open spec fn transaction_text(cmd: TransactionCommand) -> Seq<char> {
    match cmd {
        TransactionCommand::List => "Listing transactions..."@,
        TransactionCommand::Search => "Searching transactions..."@,
        TransactionCommand::Get => "Getting transaction..."@,
    }
}

/// The message printed for a settlement sub-command.
pub open spec fn settlement_text(cmd: SettlementCommand) -> Seq<char> {
    match cmd {
        SettlementCommand::List => "Listing settlements..."@,
        SettlementCommand::Get => "Getting settlement..."@,
    }
}

/// The shell that a name stands for, if it is supported.
pub open spec fn shell_named(name: Seq<char>) -> Option<CompletionShell> {
    if name == "bash"@ {
        Some(CompletionShell::Bash)
    } else if name == "zsh"@ {
        Some(CompletionShell::Zsh)
    } else if name == "fish"@ {
        Some(CompletionShell::Fish)
    } else {
        None
    }
}

/// The message of the error for an unsupported shell name.
pub open spec fn unsupported_shell_text(name: Seq<char>) -> Seq<char> {
    "Unsupported shell: "@ + name + ". Supported shells: bash, zsh, fish"@
}

pub fn health_message() -> (msg: String)
    ensures
        msg@ == health_text(),
{
    String::from_str("✓ Health check passed")
}

pub fn transaction_message(cmd: TransactionCommand) -> (msg: String)
    ensures
        msg@ == transaction_text(cmd),
{
    match cmd {
        TransactionCommand::List => String::from_str("Listing transactions..."),
        TransactionCommand::Search => String::from_str("Searching transactions..."),
        TransactionCommand::Get => String::from_str("Getting transaction..."),
    }
}

pub fn settlement_message(cmd: SettlementCommand) -> (msg: String)
    ensures
        msg@ == settlement_text(cmd),
{
    match cmd {
        SettlementCommand::List => String::from_str("Listing settlements..."),
        SettlementCommand::Get => String::from_str("Getting settlement..."),
    }
}

/// Maps a shell name to the shell whose completions are generated; the names
/// are `bash`, `zsh` and `fish`, and any other is refused with a message that
/// names it and lists the supported ones.
pub fn parse_shell(shell: &str) -> (res: Result<CompletionShell, CliError>)
    ensures
        res is Ok <==> shell_named(shell@) is Some,
        res matches Ok(s) ==> shell_named(shell@) == Some(s),
        res matches Err(CliError::Other(m)) ==> m@ == unsupported_shell_text(shell@),
{
    let name = String::from_str(shell);
    if name == String::from_str("bash") {
        Ok(CompletionShell::Bash)
    } else if name == String::from_str("zsh") {
        Ok(CompletionShell::Zsh)
    } else if name == String::from_str("fish") {
        Ok(CompletionShell::Fish)
    } else {
        let msg = String::from_str("Unsupported shell: ").concat(shell).concat(
            ". Supported shells: bash, zsh, fish",
        );
        Err(CliError::Other(msg))
    }
}

/// Runs a parsed command line: the message to print, the completions to
/// generate, or the error that ends the tool.
pub fn run_command(cmd: Option<Command>) -> (res: Result<CliAction, CliError>)
    ensures
        match cmd {
            None | Some(Command::Health) => res matches Ok(CliAction::Print(m)) && m@
                == health_text(),
            Some(Command::Transactions(c)) => res matches Ok(CliAction::Print(m)) && m@
                == transaction_text(c),
            Some(Command::Settlements(c)) => res matches Ok(CliAction::Print(m)) && m@
                == settlement_text(c),
            Some(Command::Completions { shell }) => match shell_named(shell@) {
                Some(s) => res == Ok::<CliAction, CliError>(CliAction::GenerateCompletions(s)),
                None => res matches Err(CliError::Other(m)) && m@ == unsupported_shell_text(
                    shell@,
                ),
            },
        },
{
    match cmd {
        None => Ok(CliAction::Print(health_message())),
        Some(Command::Health) => Ok(CliAction::Print(health_message())),
        Some(Command::Transactions(c)) => Ok(CliAction::Print(transaction_message(c))),
        Some(Command::Settlements(c)) => Ok(CliAction::Print(settlement_message(c))),
        Some(Command::Completions { shell }) => match parse_shell(shell.as_str()) {
            Ok(s) => Ok(CliAction::GenerateCompletions(s)),
            Err(e) => Err(e),
        },
    }
}

} // verus!

verus! {

/// The supported shell names are exactly `bash`, `zsh` and `fish`, each for
/// its own shell; every other name is refused.
pub proof fn lemma_shell_names(name: Seq<char>)
    ensures
        shell_named(name) == Some(CompletionShell::Bash) <==> name == "bash"@,
        shell_named(name) == Some(CompletionShell::Zsh) <==> name == "zsh"@,
        shell_named(name) == Some(CompletionShell::Fish) <==> name == "fish"@,
        shell_named(name) is None <==> (name != "bash"@ && name != "zsh"@ && name != "fish"@),
{
    reveal_strlit("bash");
    reveal_strlit("zsh");
    reveal_strlit("fish");
    assert("zsh"@.len() != "bash"@.len());
    assert("zsh"@.len() != "fish"@.len());
    assert("fish"@[0] != "bash"@[0]);
    assert("zsh"@ != "bash"@);
    assert("fish"@ != "bash"@);
    assert("fish"@ != "zsh"@);
}

/// The refusal of an unsupported shell names it in full, after the fixed
/// `Unsupported shell: ` label.
pub proof fn lemma_unsupported_shell_names_it(name: Seq<char>)
    ensures
        unsupported_shell_text(name).subrange(0, 19) == "Unsupported shell: "@,
        unsupported_shell_text(name).subrange(19, 19 + name.len() as int) == name,
{
    reveal_strlit("Unsupported shell: ");
    assert(unsupported_shell_text(name).subrange(0, 19) =~= "Unsupported shell: "@);
    assert(unsupported_shell_text(name).subrange(19, 19 + name.len() as int) =~= name);
}

/// Each sub-command prints its own message: no two transaction commands, and
/// no two settlement commands, share one.
pub proof fn lemma_messages_are_distinct(
    a: TransactionCommand,
    b: TransactionCommand,
    c: SettlementCommand,
    d: SettlementCommand,
)
    ensures
        transaction_text(a) == transaction_text(b) ==> a == b,
        settlement_text(c) == settlement_text(d) ==> c == d,
{
    reveal_strlit("Listing transactions...");
    reveal_strlit("Searching transactions...");
    reveal_strlit("Getting transaction...");
    reveal_strlit("Listing settlements...");
    reveal_strlit("Getting settlement...");
    if transaction_text(a) == transaction_text(b) && a != b {
        assert(transaction_text(a)[0] != transaction_text(b)[0] || transaction_text(a).len()
            != transaction_text(b).len());
    }
    if settlement_text(c) == settlement_text(d) && c != d {
        assert(settlement_text(c)[0] != settlement_text(d)[0]);
    }
}

} // verus!
