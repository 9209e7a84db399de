use vstd::prelude::*;
use vstd::string::*;

use crate::config::{Layout, layout_token};
use crate::text::{decimal, push_decimal};

verus! {

/// A shell command that the builder hands to the executor. Window and pane
/// indices are tmux's own, counted from 1.
#[derive(Debug, Clone)]
pub enum Command {
    NewSession { session: String },
    SetBaseIndex,
    SetPaneBaseIndex,
    RenameWindow { session: String, window: usize, name: String },
    NewWindow { session: String, window: usize, name: String },
    SplitWindow { session: String, window: usize, vertical: bool },
    ChangeDirectory { session: String, window: usize, pane: usize, directory: String },
    Checkout { session: String, window: usize, pane: usize, branch: String },
    SendKeys { session: String, window: usize, pane: usize, keys: String },
    SelectLayout { session: String, window: usize, layout: Layout },
    HasSession { session: String },
    AttachSession { session: String },
    Shell { text: String },
}

/// The mathematical value of a [`Command`].
pub enum CommandModel {
    NewSession { session: Seq<char> },
    SetBaseIndex,
    SetPaneBaseIndex,
    RenameWindow { session: Seq<char>, window: nat, name: Seq<char> },
    NewWindow { session: Seq<char>, window: nat, name: Seq<char> },
    SplitWindow { session: Seq<char>, window: nat, vertical: bool },
    ChangeDirectory { session: Seq<char>, window: nat, pane: nat, directory: Seq<char> },
    Checkout { session: Seq<char>, window: nat, pane: nat, branch: Seq<char> },
    SendKeys { session: Seq<char>, window: nat, pane: nat, keys: Seq<char> },
    SelectLayout { session: Seq<char>, window: nat, layout: Layout },
    HasSession { session: Seq<char> },
    AttachSession { session: Seq<char> },
    Shell { text: Seq<char> },
}

impl View for Command {
    type V = CommandModel;

    open spec fn view(&self) -> CommandModel {
        match self {
            Command::NewSession { session } => CommandModel::NewSession { session: session@ },
            Command::SetBaseIndex => CommandModel::SetBaseIndex,
            Command::SetPaneBaseIndex => CommandModel::SetPaneBaseIndex,
            Command::RenameWindow { session, window, name } => CommandModel::RenameWindow {
                session: session@,
                window: *window as nat,
                name: name@,
            },
            Command::NewWindow { session, window, name } => CommandModel::NewWindow {
                session: session@,
                window: *window as nat,
                name: name@,
            },
            Command::SplitWindow { session, window, vertical } => CommandModel::SplitWindow {
                session: session@,
                window: *window as nat,
                vertical: *vertical,
            },
            Command::ChangeDirectory { session, window, pane, directory } =>
                CommandModel::ChangeDirectory {
                    session: session@,
                    window: *window as nat,
                    pane: *pane as nat,
                    directory: directory@,
                },
            Command::Checkout { session, window, pane, branch } => CommandModel::Checkout {
                session: session@,
                window: *window as nat,
                pane: *pane as nat,
                branch: branch@,
            },
            Command::SendKeys { session, window, pane, keys } => CommandModel::SendKeys {
                session: session@,
                window: *window as nat,
                pane: *pane as nat,
                keys: keys@,
            },
            Command::SelectLayout { session, window, layout } => CommandModel::SelectLayout {
                session: session@,
                window: *window as nat,
                layout: *layout,
            },
            Command::HasSession { session } => CommandModel::HasSession { session: session@ },
            Command::AttachSession { session } => CommandModel::AttachSession {
                session: session@,
            },
            Command::Shell { text } => CommandModel::Shell { text: text@ },
        }
    }
}

/// The models of a sequence of commands.
pub open spec fn models(cmds: Seq<Command>) -> Seq<CommandModel> {
    cmds.map_values(|c: Command| c@)
}

/// tmux's address of a window: `<session>:<window>`.
pub open spec fn window_target(session: Seq<char>, window: nat) -> Seq<char> {
    session + ":"@ + decimal(window)
}

/// tmux's address of a pane: `<session>:<window>.<pane>`.
pub open spec fn pane_target(session: Seq<char>, window: nat, pane: nat) -> Seq<char> {
    window_target(session, window) + "."@ + decimal(pane)
}

/// The text of `tmux send-keys` that types `keys` into a pane and presses Enter.
pub open spec fn send_keys_text(session: Seq<char>, window: nat, pane: nat, keys: Seq<char>) -> Seq<
    char,
> {
    "tmux send-keys -t "@ + pane_target(session, window, pane) + " "@ + keys + " C-m"@
}

/// The shell text of a command.
pub open spec fn command_text(c: CommandModel) -> Seq<char> {
    match c {
        CommandModel::NewSession { session } => "tmux new-session -d -s "@ + session
            + " -n placeholder"@,
        CommandModel::SetBaseIndex => "tmux set-option -g base-index 1"@,
        CommandModel::SetPaneBaseIndex => "tmux set-option -g pane-base-index 1"@,
        CommandModel::RenameWindow { session, window, name } => "tmux rename-window -t "@
            + window_target(session, window) + " "@ + name,
        CommandModel::NewWindow { session, window, name } => "tmux new-window -t "@
            + window_target(session, window) + " -n "@ + name,
        CommandModel::SplitWindow { session, window, vertical } => "tmux split-window "@ + (
        if vertical {
            "-v"@
        } else {
            "-h"@
        }) + " -t "@ + window_target(session, window),
        CommandModel::ChangeDirectory { session, window, pane, directory } => send_keys_text(
            session,
            window,
            pane,
            "cd "@ + directory,
        ),
        CommandModel::Checkout { session, window, pane, branch } => send_keys_text(
            session,
            window,
            pane,
            "git checkout "@ + branch,
        ),
        CommandModel::SendKeys { session, window, pane, keys } => send_keys_text(
            session,
            window,
            pane,
            keys,
        ),
        CommandModel::SelectLayout { session, window, layout } => "tmux select-layout -t "@
            + window_target(session, window) + " "@ + layout_token(layout),
        CommandModel::HasSession { session } => "tmux has-session -t "@ + session,
        CommandModel::AttachSession { session } => "tmux attach-session -t "@ + session,
        CommandModel::Shell { text } => text,
    }
}

fn push_window_target(s: &mut String, session: &String, window: usize)
    ensures
        final(s)@ == old(s)@ + window_target(session@, window as nat),
{
    s.append(session.as_str());
    s.append(":");
    push_decimal(s, window);
    assert(final(s)@ =~= old(s)@ + window_target(session@, window as nat));
}

fn push_pane_target(s: &mut String, session: &String, window: usize, pane: usize)
    ensures
        final(s)@ == old(s)@ + pane_target(session@, window as nat, pane as nat),
{
    push_window_target(s, session, window);
    s.append(".");
    push_decimal(s, pane);
    assert(final(s)@ =~= old(s)@ + pane_target(session@, window as nat, pane as nat));
}

fn send_keys_string(session: &String, window: usize, pane: usize, prefix: &str, keys: &String) -> (r:
    String)
    ensures
        r@ == send_keys_text(session@, window as nat, pane as nat, prefix@ + keys@),
{
    let mut s = String::from_str("tmux send-keys -t ");
    push_pane_target(&mut s, session, window, pane);
    s.append(" ");
    s.append(prefix);
    s.append(keys.as_str());
    s.append(" C-m");
    assert(s@ =~= send_keys_text(session@, window as nat, pane as nat, prefix@ + keys@));
    s
}

impl Command {
    /// The shell text that carries out this command.
    pub fn render(&self) -> (r: String)
        ensures
            r@ == command_text(self@),
    {
        match self {
            Command::NewSession { session } => {
                let mut s = String::from_str("tmux new-session -d -s ");
                s.append(session.as_str());
                s.append(" -n placeholder");
                s
            },
            Command::SetBaseIndex => String::from_str("tmux set-option -g base-index 1"),
            Command::SetPaneBaseIndex => String::from_str("tmux set-option -g pane-base-index 1"),
            Command::RenameWindow { session, window, name } => {
                let mut s = String::from_str("tmux rename-window -t ");
                push_window_target(&mut s, session, *window);
                s.append(" ");
                s.append(name.as_str());
                s
            },
            Command::NewWindow { session, window, name } => {
                let mut s = String::from_str("tmux new-window -t ");
                push_window_target(&mut s, session, *window);
                s.append(" -n ");
                s.append(name.as_str());
                s
            },
            Command::SplitWindow { session, window, vertical } => {
                let mut s = String::from_str("tmux split-window ");
                if *vertical {
                    s.append("-v");
                } else {
                    s.append("-h");
                }
                s.append(" -t ");
                push_window_target(&mut s, session, *window);
                s
            },
            Command::ChangeDirectory { session, window, pane, directory } => {
                send_keys_string(session, *window, *pane, "cd ", directory)
            },
            Command::Checkout { session, window, pane, branch } => {
                send_keys_string(session, *window, *pane, "git checkout ", branch)
            },
            Command::SendKeys { session, window, pane, keys } => {
                let r = send_keys_string(session, *window, *pane, "", keys);
                proof {
                    reveal_strlit("");
                    assert(""@ + keys@ =~= keys@);
                }
                r
            },
            Command::SelectLayout { session, window, layout } => {
                let mut s = String::from_str("tmux select-layout -t ");
                push_window_target(&mut s, session, *window);
                s.append(" ");
                let token = layout.to_string();
                s.append(token.as_str());
                s
            },
            Command::HasSession { session } => {
                let mut s = String::from_str("tmux has-session -t ");
                s.append(session.as_str());
                s
            },
            Command::AttachSession { session } => {
                let mut s = String::from_str("tmux attach-session -t ");
                s.append(session.as_str());
                s
            },
            Command::Shell { text } => text.clone(),
        }
    }
}

/// A command that ran and did not succeed.
#[derive(Debug, Clone)]
pub struct CommandFailure {
    /// The exit code; none when the process was ended by a signal.
    pub code: Option<i32>,
    /// What the command wrote to its error stream.
    pub stderr: String,
}

/// The decimal notation of a signed integer.
pub open spec fn signed_decimal(n: int) -> Seq<char> {
    if n < 0 {
        "-"@ + decimal((-n) as nat)
    } else {
        decimal(n as nat)
    }
}

/// The message that describes a failure.
pub open spec fn failure_text(code: Option<i32>, stderr: Seq<char>) -> Seq<char> {
    match code {
        Some(c) => "Command failed with exit code "@ + signed_decimal(c as int) + ": "@ + stderr,
        None => "Command failed without an exit code: "@ + stderr,
    }
}

/// The outcome of a finished command: success, or a failure that carries its
/// exit code and error output.
pub fn command_outcome(success: bool, code: Option<i32>, stderr: String) -> (r: Result<
    (),
    CommandFailure,
>)
    ensures
        r is Ok <==> success,
        r matches Err(e) ==> e.code == code && e.stderr@ == stderr@,
{
    if success {
        Ok(())
    } else {
        Err(CommandFailure { code, stderr })
    }
}

impl CommandFailure {
    /// The message shown to the operator.
    pub fn message(&self) -> (r: String)
        ensures
            r@ == failure_text(self.code, self.stderr@),
    {
        match self.code {
            Some(c) => {
                let mut s = String::from_str("Command failed with exit code ");
                if c < 0 {
                    s.append("-");
                    let magnitude: i64 = -(c as i64);
                    push_decimal(&mut s, magnitude as usize);
                } else {
                    push_decimal(&mut s, c as usize);
                }
                s.append(": ");
                s.append(self.stderr.as_str());
                proof {
                    assert(s@ =~= failure_text(self.code, self.stderr@));
                }
                s
            },
            None => {
                let mut s = String::from_str("Command failed without an exit code: ");
                s.append(self.stderr.as_str());
                s
            },
        }
    }
}

} // verus!
