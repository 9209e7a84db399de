use vstd::prelude::*;
use vstd::string::*;

use crate::commands::{Command, CommandModel};
use crate::config::{Config, Defaults, Window};

verus! {

/// The commands that run an optional hook: none, or the hook itself.
pub open spec fn hook_commands(hook: Option<String>) -> Seq<CommandModel> {
    match hook {
        Some(text) => seq![CommandModel::Shell { text: text@ }],
        None => Seq::empty(),
    }
}

/// The session hook that the defaults block supplies: its pre-build hook when
/// `pre`, else its post-build hook.
pub open spec fn session_hook(defaults: Option<Defaults>, pre: bool) -> Option<String> {
    match defaults {
        Some(d) => if pre {
            d.pre_command
        } else {
            d.post_command
        },
        None => None,
    }
}

/// The command that runs `hook`, if there is one.
pub fn hook_command(hook: &Option<String>) -> (r: Option<Command>)
    ensures
        r is None <==> hook is None,
        r matches Some(c) ==> seq![c@] == hook_commands(*hook),
{
    match hook {
        Some(text) => Some(Command::Shell { text: String::from_str(text.as_str()) }),
        None => None,
    }
}

/// The session's pre-build hook: the defaults' `pre_command`.
pub fn run_pre_session_hooks(config: &Config) -> (r: Option<Command>)
    ensures
        r is None <==> session_hook(config.defaults, true) is None,
        r matches Some(c) ==> seq![c@] == hook_commands(session_hook(config.defaults, true)),
{
    match &config.defaults {
        Some(defaults) => hook_command(&defaults.pre_command),
        None => None,
    }
}

/// The session's post-build hook: the defaults' `post_command`.
pub fn run_post_session_hooks(config: &Config) -> (r: Option<Command>)
    ensures
        r is None <==> session_hook(config.defaults, false) is None,
        r matches Some(c) ==> seq![c@] == hook_commands(session_hook(config.defaults, false)),
{
    match &config.defaults {
        Some(defaults) => hook_command(&defaults.post_command),
        None => None,
    }
}

/// A window's pre-build hook.
pub fn run_pre_window_hooks(window: &Window) -> (r: Option<Command>)
    ensures
        r is None <==> window.pre_command is None,
        r matches Some(c) ==> seq![c@] == hook_commands(window.pre_command),
{
    hook_command(&window.pre_command)
}

/// A window's post-build hook.
pub fn run_post_window_hooks(window: &Window) -> (r: Option<Command>)
    ensures
        r is None <==> window.post_command is None,
        r matches Some(c) ==> seq![c@] == hook_commands(window.post_command),
{
    hook_command(&window.post_command)
}

/// Types `command` into pane `pane_idx` of window `window_idx` and presses
/// Enter; both numbers are tmux's own, counted from 1.
pub fn send_keys(sess_name: &str, window_idx: usize, pane_idx: usize, command: &str) -> (r:
    Command)
    ensures
        r@ == (CommandModel::SendKeys {
            session: sess_name@,
            window: window_idx as nat,
            pane: pane_idx as nat,
            keys: command@,
        }),
{
    Command::SendKeys {
        session: String::from_str(sess_name),
        window: window_idx,
        pane: pane_idx,
        keys: String::from_str(command),
    }
}

} // verus!
