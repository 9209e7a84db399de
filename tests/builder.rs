use tmux_setup::apply::{Progress, SessionBuild, Stage};
use tmux_setup::commands::Command;
use tmux_setup::config::{Config, Defaults, Layout, Pane, Window};
use tmux_setup::hooks::{run_post_session_hooks, run_pre_session_hooks, send_keys};
use tmux_setup::session::{create_panes, create_session, create_window, window_name};

fn pane(cmd: &str, dir: Option<&str>) -> Pane {
    Pane {
        directory: dir.map(|d| d.to_string()),
        initial_command: cmd.to_string(),
        pre_command: None,
        post_command: None,
    }
}

fn window(name: &str) -> Window {
    Window {
        name: name.to_string(),
        directory: None,
        initial_command: None,
        layout: None,
        git_branch: None,
        panes: None,
        pre_command: None,
        post_command: None,
    }
}

fn defaults_with_dir(dir: &str) -> Defaults {
    Defaults {
        directory: Some(dir.to_string()),
        initial_command: None,
        dependencies: None,
        pre_command: None,
        post_command: None,
        branch: None,
    }
}

fn texts(cmds: &[Command]) -> Vec<String> {
    cmds.iter().map(|c| c.render()).collect()
}

/// Runs a build to its end, failing the commands whose text is in `failing`,
/// and returns the commands that ran.
fn run(build: &mut SessionBuild, failing: &[&str]) -> Vec<String> {
    let mut ran = Vec::new();
    while let Some(c) = build.current() {
        let text = c.render();
        let ok = !failing.contains(&text.as_str());
        ran.push(text);
        build.record(ok);
    }
    ran
}

#[test]
fn end_to_end_dev_session() {
    let mut w = window("edit");
    w.layout = Some(Layout::MainVertical);
    w.panes = Some(vec![pane("vim", None), pane("ls", Some("logs"))]);
    let mut config = Config::new();
    config.session_name = "dev".to_string();
    config.defaults = Some(defaults_with_dir("/home/u/proj"));
    config.windows = vec![w];
    let plan = create_session("dev", &config);
    let mut build = SessionBuild::start(plan);
    let ran = run(&mut build, &[]);
    assert_eq!(
        ran,
        vec![
            "tmux new-session -d -s dev -n placeholder",
            "tmux set-option -g base-index 1",
            "tmux set-option -g pane-base-index 1",
            "tmux rename-window -t dev:1 edit",
            "tmux send-keys -t dev:1.1 vim C-m",
            "tmux split-window -v -t dev:1",
            "tmux send-keys -t dev:1.2 cd /home/u/proj/logs C-m",
            "tmux send-keys -t dev:1.2 ls C-m",
            "tmux select-layout -t dev:1 main-vertical",
        ]
    );
    assert_eq!(build.stage, Stage::Done);
}

#[test]
fn one_creation_command_per_window_in_order() {
    let mut config = Config::new();
    config.windows = vec![window("a"), window(""), window("c")];
    let plan = create_session("s", &config);
    assert_eq!(plan.windows.len(), 3);
    let creations: Vec<String> = plan
        .windows
        .iter()
        .flat_map(|w| w.iter())
        .filter(|c| matches!(c, Command::RenameWindow { .. } | Command::NewWindow { .. }))
        .map(|c| c.render())
        .collect();
    assert_eq!(
        creations,
        vec![
            "tmux rename-window -t s:1 a",
            "tmux new-window -t s:2 -n window-2",
            "tmux new-window -t s:3 -n c",
        ]
    );
}

#[test]
fn panes_give_splits_and_injections() {
    let mut w = window("w");
    w.panes = Some(vec![pane("a", None), pane("b", None), pane("c", None)]);
    let cmds = create_panes("s", 2, &w, "");
    let splits = cmds.iter().filter(|c| matches!(c, Command::SplitWindow { .. })).count();
    let keys: Vec<String> = cmds
        .iter()
        .filter(|c| matches!(c, Command::SendKeys { .. }))
        .map(|c| c.render())
        .collect();
    assert_eq!(splits, 2);
    assert_eq!(
        keys,
        vec![
            "tmux send-keys -t s:2.1 a C-m",
            "tmux send-keys -t s:2.2 b C-m",
            "tmux send-keys -t s:2.3 c C-m",
        ]
    );
}

#[test]
fn no_panes_still_selects_layout() {
    let mut w = window("w");
    w.layout = Some(Layout::Tiled);
    let cmds = create_panes("s", 1, &w, "");
    assert_eq!(texts(&cmds), vec!["tmux select-layout -t s:1 tiled"]);
    w.panes = Some(vec![]);
    let cmds = create_panes("s", 1, &w, "");
    assert_eq!(texts(&cmds), vec!["tmux select-layout -t s:1 tiled"]);
}

#[test]
fn split_orientation_follows_layout() {
    let cases = [
        (Some(Layout::EvenHorizontal), "-h"),
        (Some(Layout::EvenVertical), "-v"),
        (Some(Layout::MainHorizontal), "-h"),
        (Some(Layout::MainVertical), "-v"),
        (Some(Layout::Tiled), "-h"),
        (None, "-h"),
    ];
    for (layout, flag) in cases {
        let mut w = window("w");
        w.layout = layout;
        w.panes = Some(vec![pane("a", None), pane("b", None), pane("c", None)]);
        let cmds = create_panes("s", 1, &w, "");
        let splits: Vec<String> = cmds
            .iter()
            .filter(|c| matches!(c, Command::SplitWindow { .. }))
            .map(|c| c.render())
            .collect();
        assert_eq!(splits.len(), 2);
        for s in splits {
            assert_eq!(s, format!("tmux split-window {} -t s:1", flag));
        }
        if let Some(l) = layout {
            assert_eq!(l.to_string().contains("vertical"), flag == "-v");
            assert_eq!(l.is_vertical(), flag == "-v");
        }
    }
}

#[test]
fn failed_post_hook_leaves_other_windows_whole() {
    let mut a = window("a");
    a.panes = Some(vec![pane("one", None)]);
    let mut b = window("b");
    b.post_command = Some("false-hook".to_string());
    let mut c = window("c");
    c.panes = Some(vec![pane("three", None), pane("four", None)]);
    let mut config = Config::new();
    config.windows = vec![a, b, c];
    let plan = create_session("s", &config);
    let first = texts(&plan.windows[0]);
    let third = texts(&plan.windows[2]);
    let mut build = SessionBuild::start(plan);
    let mut ran = Vec::new();
    let mut abandoned = Vec::new();
    while let Some(cmd) = build.current() {
        let text = cmd.render();
        let ok = text != "false-hook";
        ran.push(text);
        if let Progress::WindowAbandoned { index } = build.record(ok) {
            abandoned.push(index);
        }
    }
    assert_eq!(abandoned, vec![1]);
    assert_eq!(build.stage, Stage::Done);
    for t in first.iter().chain(third.iter()) {
        assert!(ran.contains(t));
    }
    assert!(ran.contains(&"tmux new-window -t s:2 -n b".to_string()));
    assert_eq!(ran.last().unwrap(), third.last().unwrap());
}

#[test]
fn failure_inside_window_skips_rest_of_window() {
    let mut a = window("a");
    a.pre_command = Some("bad".to_string());
    let mut config = Config::new();
    config.windows = vec![a, window("b")];
    let mut build = SessionBuild::start(create_session("s", &config));
    let ran = run(&mut build, &["bad"]);
    assert!(!ran.contains(&"tmux rename-window -t s:1 a".to_string()));
    assert!(ran.contains(&"tmux new-window -t s:2 -n b".to_string()));
    assert_eq!(build.stage, Stage::Done);
}

#[test]
fn setup_failure_aborts() {
    let mut config = Config::new();
    config.windows = vec![window("a")];
    let mut build = SessionBuild::start(create_session("s", &config));
    assert_eq!(build.current().unwrap().render(), "tmux new-session -d -s s -n placeholder");
    assert_eq!(build.record(false), Progress::Aborted);
    assert_eq!(build.stage, Stage::Failed);
    assert!(build.current().is_none());
    assert!(build.is_over());
}

#[test]
fn session_hooks_wrap_the_build() {
    let mut d = defaults_with_dir("/p");
    d.pre_command = Some("echo pre".to_string());
    d.post_command = Some("echo post".to_string());
    let mut config = Config::new();
    config.defaults = Some(d);
    config.windows = vec![window("a")];
    assert_eq!(run_pre_session_hooks(&config).unwrap().render(), "echo pre");
    assert_eq!(run_post_session_hooks(&config).unwrap().render(), "echo post");
    let mut build = SessionBuild::start(create_session("s", &config));
    let ran = run(&mut build, &[]);
    assert_eq!(ran.first().unwrap(), "echo pre");
    assert_eq!(ran.last().unwrap(), "echo post");
    let mut build = SessionBuild::start(create_session("s", &config));
    let ran = run(&mut build, &["echo post"]);
    assert_eq!(ran.last().unwrap(), "echo post");
    assert_eq!(build.stage, Stage::Failed);
}

#[test]
fn window_directory_and_branch() {
    let mut w = window("w");
    w.directory = Some("src".to_string());
    w.git_branch = Some("main".to_string());
    w.panes = Some(vec![pane("a", Some("x"))]);
    let cmds = create_window("s", 1, &w, &Some(defaults_with_dir("/p")));
    assert_eq!(
        texts(&cmds),
        vec![
            "tmux new-window -t s:2 -n w",
            "tmux send-keys -t s:2.1 cd /p/src C-m",
            "tmux send-keys -t s:2.1 git checkout main C-m",
            "tmux send-keys -t s:2.1 cd /p/src/x C-m",
            "tmux send-keys -t s:2.1 a C-m",
        ]
    );
}

#[test]
fn window_directory_without_defaults_is_ignored() {
    let mut w = window("w");
    w.directory = Some("/abs".to_string());
    w.pre_command = Some("pre".to_string());
    w.post_command = Some("post".to_string());
    let cmds = create_window("s", 0, &w, &None);
    assert_eq!(texts(&cmds), vec!["pre", "tmux rename-window -t s:1 w", "post"]);
}

#[test]
fn unnamed_windows_are_numbered() {
    assert_eq!(window_name(&String::new(), 0), "window-1");
    assert_eq!(window_name(&String::new(), 9), "window-10");
    assert_eq!(window_name(&"x".to_string(), 4), "x");
}

#[test]
fn send_keys_addresses_from_one() {
    assert_eq!(send_keys("s", 1, 2, "ls").render(), "tmux send-keys -t s:1.2 ls C-m");
    assert_eq!(send_keys("dev", 3, 1, "vim").render(), "tmux send-keys -t dev:3.1 vim C-m");
}
