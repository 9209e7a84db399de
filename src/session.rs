use vstd::prelude::*;
use vstd::string::*;

use crate::commands::{Command, CommandModel, models};
use crate::config::{Config, Defaults, Layout, Pane, Window, layout_is_vertical, window_panes};
use crate::hooks::{
    hook_commands, run_post_session_hooks, run_post_window_hooks, run_pre_session_hooks,
    run_pre_window_hooks, send_keys, session_hook,
};
use crate::paths::{first_true, lemma_first_true, path_join, resolve_dir};
use crate::text::{decimal, push_decimal};

verus! {

/// The commands that set up pane `j` (counted from 0) of window `win`: a split
/// for every pane after the first, a change of directory where the pane names
/// one (resolved against `dir`), then the pane's initial command.
pub open spec fn pane_commands(
    sess: Seq<char>,
    win: nat,
    panes: Seq<Pane>,
    vertical: bool,
    dir: Seq<char>,
    j: int,
) -> Seq<CommandModel> {
    (if j > 0 {
        seq![CommandModel::SplitWindow { session: sess, window: win, vertical: vertical }]
    } else {
        Seq::empty()
    }) + match panes[j].directory {
        Some(d) => seq![
            CommandModel::ChangeDirectory {
                session: sess,
                window: win,
                pane: (j + 1) as nat,
                directory: path_join(dir, d@),
            },
        ],
        None => Seq::empty(),
    } + seq![
        CommandModel::SendKeys {
            session: sess,
            window: win,
            pane: (j + 1) as nat,
            keys: panes[j].initial_command@,
        },
    ]
}

/// The commands for the first `n` panes, in pane order.
pub open spec fn panes_commands(
    sess: Seq<char>,
    win: nat,
    panes: Seq<Pane>,
    vertical: bool,
    dir: Seq<char>,
    n: nat,
) -> Seq<CommandModel>
    decreases n,
{
    if n == 0 {
        Seq::empty()
    } else {
        panes_commands(sess, win, panes, vertical, dir, (n - 1) as nat) + pane_commands(
            sess,
            win,
            panes,
            vertical,
            dir,
            n - 1,
        )
    }
}

/// The layout selection of a window, once, when it names a layout.
pub open spec fn layout_commands(sess: Seq<char>, win: nat, layout: Option<Layout>) -> Seq<
    CommandModel,
> {
    match layout {
        Some(l) => seq![CommandModel::SelectLayout { session: sess, window: win, layout: l }],
        None => Seq::empty(),
    }
}

/// Everything that fills window `win`: its panes in order, then its layout.
pub open spec fn window_pane_commands(sess: Seq<char>, win: nat, w: Window, dir: Seq<char>) -> Seq<
    CommandModel,
> {
    let panes = window_panes(w);
    panes_commands(sess, win, panes, layout_is_vertical(w.layout), dir, panes.len())
        + layout_commands(sess, win, w.layout)
}

fn push_command(out: &mut Vec<Command>, c: Command)
    ensures
        models(final(out)@) == models(old(out)@).push(c@),
{
    out.push(c);
    assert(models(final(out)@) =~= models(old(out)@).push(c@));
}

fn append_commands(out: &mut Vec<Command>, more: Vec<Command>)
    ensures
        models(final(out)@) == models(old(out)@) + models(more@),
{
    let mut more = more;
    let ghost more0 = more@;
    out.append(&mut more);
    assert(models(final(out)@) =~= models(old(out)@) + models(more0));
}

/// The commands that fill window `window_idx` (counted from 1): splits, changes
/// of directory and initial commands pane by pane, then the layout.
pub fn create_panes(sess_name: &str, window_idx: usize, window: &Window, default_dir: &str) -> (r:
    Vec<Command>)
    ensures
        models(r@) == window_pane_commands(sess_name@, window_idx as nat, *window, default_dir@),
{
    let mut out: Vec<Command> = Vec::new();
    let vertical = match &window.layout {
        Some(layout) => layout.is_vertical(),
        None => false,
    };
    let ghost panes = window_panes(*window);
    if let Some(panes) = &window.panes {
        let mut i: usize = 0;
        while i < panes.len()
            invariant
                i <= panes@.len(),
                panes@ == window_panes(*window),
                vertical == layout_is_vertical(window.layout),
                models(out@) == panes_commands(
                    sess_name@,
                    window_idx as nat,
                    panes@,
                    vertical,
                    default_dir@,
                    i as nat,
                ),
            decreases panes@.len() - i,
        {
            let ghost before = models(out@);
            let pane = &panes[i];
            if i > 0 {
                push_command(
                    &mut out,
                    Command::SplitWindow {
                        session: String::from_str(sess_name),
                        window: window_idx,
                        vertical: vertical,
                    },
                );
            }
            if let Some(pane_dir) = &pane.directory {
                let resolved = resolve_dir(default_dir, pane_dir.as_str());
                push_command(
                    &mut out,
                    Command::ChangeDirectory {
                        session: String::from_str(sess_name),
                        window: window_idx,
                        pane: i + 1,
                        directory: resolved,
                    },
                );
            }
            push_command(
                &mut out,
                send_keys(sess_name, window_idx, i + 1, pane.initial_command.as_str()),
            );
            assert(models(out@) =~= before + pane_commands(
                sess_name@,
                window_idx as nat,
                panes@,
                vertical,
                default_dir@,
                i as int,
            ));
            i = i + 1;
        }
    }
    if let Some(layout) = &window.layout {
        push_command(
            &mut out,
            Command::SelectLayout {
                session: String::from_str(sess_name),
                window: window_idx,
                layout: *layout,
            },
        );
    }
    assert(models(out@) =~= window_pane_commands(
        sess_name@,
        window_idx as nat,
        *window,
        default_dir@,
    ));
    out
}

/// A window's name, or `window-<n>` for an unnamed window at position `i`
/// (counted from 0), where `n = i + 1`.
pub open spec fn effective_window_name(name: Seq<char>, i: nat) -> Seq<char> {
    if name.len() == 0 {
        "window-"@ + decimal(i + 1)
    } else {
        name
    }
}

/// The directory of the defaults block, if any.
pub open spec fn defaults_directory(d: Option<Defaults>) -> Option<String> {
    match d {
        Some(d) => d.directory,
        None => None,
    }
}

/// A window's own directory resolved against the defaults' directory; only
/// when both are given. A window that names a directory while the defaults
/// name none gets no directory: a known gap, kept for compatibility with
/// existing configurations.
pub open spec fn window_directory(w: Window, d: Option<Defaults>) -> Option<Seq<char>> {
    match (defaults_directory(d), w.directory) {
        (Some(parent), Some(dir)) => Some(path_join(parent@, dir@)),
        _ => None,
    }
}

/// The directory against which a window's panes resolve their own: the
/// window's resolved directory, else the defaults' directory, else empty.
/// Falling back on the defaults' directory, rather than on the empty string
/// whenever the window's directory did not resolve, lets a pane directory
/// such as `logs` land under the defaults' directory, as windows inherit it.
pub open spec fn pane_parent(w: Window, d: Option<Defaults>) -> Seq<char> {
    match window_directory(w, d) {
        Some(dir) => dir,
        None => match defaults_directory(d) {
            Some(dir) => dir@,
            None => Seq::empty(),
        },
    }
}

/// The command that brings window `i` (counted from 0) into being: the first
/// window renames the session's initial window, every later one is new.
pub open spec fn creation_command(sess: Seq<char>, i: nat, name: Seq<char>) -> CommandModel {
    if i == 0 {
        CommandModel::RenameWindow { session: sess, window: 1, name: name }
    } else {
        CommandModel::NewWindow { session: sess, window: i + 1, name: name }
    }
}

/// The change of directory into a window's first pane, when the window's
/// directory resolves.
pub open spec fn directory_commands(sess: Seq<char>, i: nat, w: Window, d: Option<Defaults>) -> Seq<
    CommandModel,
> {
    match window_directory(w, d) {
        Some(dir) => seq![
            CommandModel::ChangeDirectory { session: sess, window: i + 1, pane: 1, directory: dir },
        ],
        None => Seq::empty(),
    }
}

/// The checkout of a window's branch in its first pane, when it names one.
pub open spec fn checkout_commands(sess: Seq<char>, i: nat, w: Window) -> Seq<CommandModel> {
    match w.git_branch {
        Some(b) => seq![CommandModel::Checkout { session: sess, window: i + 1, pane: 1, branch: b@ }],
        None => Seq::empty(),
    }
}

/// The commands of window `i` (counted from 0), in order: pre-hook, creation,
/// change of directory, branch checkout, panes and layout, post-hook.
pub open spec fn window_commands(sess: Seq<char>, i: nat, w: Window, d: Option<Defaults>) -> Seq<
    CommandModel,
> {
    hook_commands(w.pre_command) + seq![creation_command(sess, i, effective_window_name(w.name@, i))]
        + directory_commands(sess, i, w, d) + checkout_commands(sess, i, w)
        + window_pane_commands(sess, i + 1, w, pane_parent(w, d)) + hook_commands(w.post_command)
}

/// The name of window `i` (counted from 0).
pub fn window_name(name: &String, i: usize) -> (r: String)
    requires
        i < usize::MAX,
    ensures
        r@ == effective_window_name(name@, i as nat),
{
    if name.as_str().is_empty() {
        let mut s = String::from_str("window-");
        push_decimal(&mut s, i + 1);
        s
    } else {
        name.clone()
    }
}

fn push_hook(out: &mut Vec<Command>, hook: Option<Command>)
    ensures
        hook is None ==> models(final(out)@) == models(old(out)@),
        hook matches Some(c) ==> models(final(out)@) == models(old(out)@) + seq![c@],
{
    if let Some(c) = hook {
        push_command(out, c);
        assert(models(old(out)@).push(c@) =~= models(old(out)@) + seq![c@]);
    }
}

fn push_directory(
    out: &mut Vec<Command>,
    sess_name: &str,
    i: usize,
    window: &Window,
    defaults: &Option<Defaults>,
) -> (parent: String)
    requires
        i < usize::MAX,
    ensures
        parent@ == pane_parent(*window, *defaults),
        models(final(out)@) == models(old(out)@) + directory_commands(
            sess_name@,
            i as nat,
            *window,
            *defaults,
        ),
{
    let mut parent = String::new();
    if let Some(d) = defaults {
        if let Some(defaults_dir) = &d.directory {
            parent = defaults_dir.clone();
            if let Some(window_dir) = &window.directory {
                let dir = resolve_dir(defaults_dir.as_str(), window_dir.as_str());
                parent = dir.clone();
                push_command(
                    out,
                    Command::ChangeDirectory {
                        session: String::from_str(sess_name),
                        window: i + 1,
                        pane: 1,
                        directory: dir,
                    },
                );
            }
        }
    }
    assert(models(final(out)@) =~= models(old(out)@) + directory_commands(
        sess_name@,
        i as nat,
        *window,
        *defaults,
    ));
    parent
}

fn push_checkout(out: &mut Vec<Command>, sess_name: &str, i: usize, window: &Window)
    requires
        i < usize::MAX,
    ensures
        models(final(out)@) == models(old(out)@) + checkout_commands(sess_name@, i as nat, *window),
{
    if let Some(branch) = &window.git_branch {
        push_command(
            out,
            Command::Checkout {
                session: String::from_str(sess_name),
                window: i + 1,
                pane: 1,
                branch: String::from_str(branch.as_str()),
            },
        );
    }
    assert(models(final(out)@) =~= models(old(out)@) + checkout_commands(
        sess_name@,
        i as nat,
        *window,
    ));
}

/// The commands of window `i` (counted from 0) of the session `sess_name`.
pub fn create_window(sess_name: &str, i: usize, window: &Window, defaults: &Option<Defaults>) -> (r:
    Vec<Command>)
    requires
        i < usize::MAX,
    ensures
        models(r@) == window_commands(sess_name@, i as nat, *window, *defaults),
{
    let ghost sess = sess_name@;
    let mut out: Vec<Command> = Vec::new();
    let name = window_name(&window.name, i);
    push_hook(&mut out, run_pre_window_hooks(window));
    assert(models(out@) =~= hook_commands(window.pre_command));
    let creation = if i == 0 {
        Command::RenameWindow { session: String::from_str(sess_name), window: 1, name: name }
    } else {
        Command::NewWindow { session: String::from_str(sess_name), window: i + 1, name: name }
    };
    push_command(&mut out, creation);
    let ghost m1 = models(out@);
    assert(m1 =~= hook_commands(window.pre_command) + seq![
        creation_command(sess, i as nat, effective_window_name(window.name@, i as nat)),
    ]);
    let parent = push_directory(&mut out, sess_name, i, window, defaults);
    push_checkout(&mut out, sess_name, i, window);
    let panes = create_panes(sess_name, i + 1, window, parent.as_str());
    append_commands(&mut out, panes);
    push_hook(&mut out, run_post_window_hooks(window));
    assert(models(out@) =~= window_commands(sess, i as nat, *window, *defaults));
    out
}

/// A required executable that was found nowhere.
#[derive(Debug, Clone)]
pub struct DependencyMissing {
    pub name: String,
}

impl DependencyMissing {
    /// The message shown to the operator.
    pub fn message(&self) -> (r: String)
        ensures
            r@ == "Dependency not found: "@ + self.name@,
    {
        let mut s = String::from_str("Dependency not found: ");
        s.append(self.name.as_str());
        s
    }
}

/// The flags of the dependencies that were not found.
pub open spec fn missing_flags(found: Seq<bool>) -> Seq<bool> {
    found.map_values(|b: bool| !b)
}

/// Checks the declared dependencies, where `found[i]` says whether `deps[i]`
/// resolved; fails naming the first one that did not.
pub fn check_deps(deps: &Option<Vec<String>>, found: &Vec<bool>) -> (r: Result<
    (),
    DependencyMissing,
>)
    requires
        deps matches Some(v) ==> v@.len() == found@.len(),
    ensures
        deps is None ==> r is Ok,
        deps matches Some(v) ==> (r is Ok <==> first_true(missing_flags(found@)) is None),
        deps matches Some(v) ==> (r matches Err(e) ==> e.name@ == v@[first_true(
            missing_flags(found@),
        )->Some_0 as int]@),
{
    if let Some(list) = deps {
        let mut i: usize = 0;
        while i < list.len()
            invariant
                i <= list@.len(),
                list@.len() == found@.len(),
                deps matches Some(v) && v@ == list@,
                forall|k: int| 0 <= k < i ==> found@[k],
            decreases list@.len() - i,
        {
            if !found[i] {
                proof {
                    let m = missing_flags(found@);
                    lemma_first_true(m);
                    assert(m[i as int]);
                    let j = first_true(m)->Some_0;
                    if j < i {
                        assert(found@[j as int]);
                    }
                    if j > i {
                        assert(!m[i as int]);
                    }
                }
                return Err(DependencyMissing { name: list[i].clone() });
            }
            i = i + 1;
        }
        proof {
            let m = missing_flags(found@);
            lemma_first_true(m);
            assert forall|k: int| 0 <= k < m.len() implies !m[k] by {
                assert(found@[k]);
            }
        }
    }
    Ok(())
}

/// A dependency that did not resolve is never passed over: when any is
/// missing, the check names one that is missing and the earliest such.
pub proof fn lemma_missing_dependency_reported(found: Seq<bool>, j: int)
    requires
        0 <= j < found.len(),
        !found[j],
    ensures
        first_true(missing_flags(found)) is Some,
        first_true(missing_flags(found))->Some_0 <= j,
        !found[first_true(missing_flags(found))->Some_0 as int],
{
    let m = missing_flags(found);
    lemma_first_true(m);
    assert(m[j]);
    let k = first_true(m)->Some_0;
    if k > j {
        assert(!m[j]);
    }
    assert(m[k as int]);
}

/// Everything that applying a configuration runs, in order: the setup (the
/// session's pre-hook, the session itself and its numbering options), each
/// window's commands, and the finish (the session's post-hook).
#[derive(Debug, Clone)]
pub struct SessionPlan {
    pub setup: Vec<Command>,
    pub windows: Vec<Vec<Command>>,
    pub finish: Vec<Command>,
}

/// The models of each window's commands.
pub open spec fn window_models(windows: Seq<Vec<Command>>) -> Seq<Seq<CommandModel>> {
    windows.map_values(|v: Vec<Command>| models(v@))
}

/// The commands that create the session and number its windows and panes from 1.
pub open spec fn session_setup(sess: Seq<char>) -> Seq<CommandModel> {
    seq![
        CommandModel::NewSession { session: sess },
        CommandModel::SetBaseIndex,
        CommandModel::SetPaneBaseIndex,
    ]
}

impl SessionPlan {
    /// Every window has at least one command.
    pub open spec fn wf(&self) -> bool {
        forall|i: int| 0 <= i < self.windows@.len() ==> #[trigger] self.windows@[i]@.len() > 0
    }

    /// The plan that applies `config` under the session name `sess`.
    pub open spec fn describes(&self, sess: Seq<char>, config: Config) -> bool {
        &&& models(self.setup@) == hook_commands(session_hook(config.defaults, true))
            + session_setup(sess)
        &&& window_models(self.windows@).len() == config.windows@.len()
        &&& forall|i: int|
            0 <= i < config.windows@.len() ==> #[trigger] window_models(self.windows@)[i]
                == window_commands(sess, i as nat, config.windows@[i], config.defaults)
        &&& models(self.finish@) == hook_commands(session_hook(config.defaults, false))
    }
}

/// The plan that builds the session `sess_name` from `config`.
pub fn create_session(sess_name: &str, config: &Config) -> (r: SessionPlan)
    requires
        config.windows@.len() < usize::MAX,
    ensures
        r.describes(sess_name@, *config),
        r.wf(),
{
    let mut setup: Vec<Command> = Vec::new();
    push_hook(&mut setup, run_pre_session_hooks(config));
    let ghost pre = models(setup@);
    push_command(&mut setup, Command::NewSession { session: String::from_str(sess_name) });
    push_command(&mut setup, Command::SetBaseIndex);
    push_command(&mut setup, Command::SetPaneBaseIndex);
    assert(models(setup@) =~= pre + session_setup(sess_name@));
    let mut windows: Vec<Vec<Command>> = Vec::new();
    let mut i: usize = 0;
    while i < config.windows.len()
        invariant
            i <= config.windows@.len() < usize::MAX,
            windows@.len() == i,
            forall|k: int|
                0 <= k < i ==> #[trigger] window_models(windows@)[k] == window_commands(
                    sess_name@,
                    k as nat,
                    config.windows@[k],
                    config.defaults,
                ),
        decreases config.windows@.len() - i,
    {
        let cmds = create_window(sess_name, i, &config.windows[i], &config.defaults);
        let ghost before = windows@;
        windows.push(cmds);
        proof {
            assert(windows@ == before.push(cmds));
            assert forall|k: int| 0 <= k < i + 1 implies #[trigger] window_models(windows@)[k]
                == window_commands(sess_name@, k as nat, config.windows@[k], config.defaults) by {
                if k < i {
                    assert(windows@[k] == before[k]);
                    assert(window_models(before)[k] == window_models(windows@)[k]);
                }
            }
        }
        i = i + 1;
    }
    let mut finish: Vec<Command> = Vec::new();
    push_hook(&mut finish, run_post_session_hooks(config));
    assert(models(finish@) =~= hook_commands(session_hook(config.defaults, false)));
    let r = SessionPlan { setup, windows, finish };
    assert forall|k: int| 0 <= k < r.windows@.len() implies #[trigger] r.windows@[k]@.len() > 0 by {
        assert(window_models(r.windows@)[k].len() == r.windows@[k]@.len());
    }
    r
}

/// The session's name: the configured one, or `dir_name` (the base name of the
/// working directory) when none is configured.
pub fn session_name(config: &Config, dir_name: &str) -> (r: String)
    ensures
        r@ == (if config.session_name@.len() == 0 {
            dir_name@
        } else {
            config.session_name@
        }),
{
    if config.session_name.as_str().is_empty() {
        String::from_str(dir_name)
    } else {
        config.session_name.clone()
    }
}

/// What applying a configuration does once the running sessions and the
/// dependencies have been looked at.
#[derive(Debug, Clone)]
pub enum StartAction {
    /// The session is already running: attach to it and build nothing.
    Attach,
    /// A dependency is missing: stop before any change to tmux.
    Stop { missing: DependencyMissing },
    /// Build the session.
    Build,
}

/// A running session is attached to and never rebuilt; otherwise a missing
/// dependency stops the apply, and with all dependencies present the session
/// is built.
pub fn start_action(session_exists: bool, deps: Result<(), DependencyMissing>) -> (r: StartAction)
    ensures
        session_exists ==> r is Attach,
        !session_exists && deps is Err ==> r is Stop && r->Stop_missing.name@
            == deps->Err_0.name@,
        !session_exists && deps is Ok ==> r is Build,
{
    if session_exists {
        StartAction::Attach
    } else {
        match deps {
            Ok(()) => StartAction::Build,
            Err(missing) => StartAction::Stop { missing },
        }
    }
}

} // verus!
