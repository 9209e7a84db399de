use tmux_setup::args::{default_config_path, Commands, Invocation, TmuxSetup};
use tmux_setup::commands::{command_outcome, Command};
use tmux_setup::config::{Config, Layout};
use tmux_setup::session::session_name;
use tmux_setup::text::decimal_string;

#[test]
fn decimals() {
    assert_eq!(decimal_string(0), "0");
    assert_eq!(decimal_string(7), "7");
    assert_eq!(decimal_string(1204), "1204");
    assert_eq!(decimal_string(usize::MAX), usize::MAX.to_string());
}

#[test]
fn layout_tokens() {
    assert_eq!(Layout::EvenHorizontal.to_string(), "even-horizontal");
    assert_eq!(Layout::EvenVertical.to_string(), "even-vertical");
    assert_eq!(Layout::MainHorizontal.to_string(), "main-horizontal");
    assert_eq!(Layout::MainVertical.to_string(), "main-vertical");
    assert_eq!(Layout::Tiled.to_string(), "tiled");
}

#[test]
fn command_texts() {
    let s = || "s".to_string();
    assert_eq!(Command::SetBaseIndex.render(), "tmux set-option -g base-index 1");
    assert_eq!(Command::SetPaneBaseIndex.render(), "tmux set-option -g pane-base-index 1");
    assert_eq!(
        Command::SplitWindow { session: s(), window: 12, vertical: false }.render(),
        "tmux split-window -h -t s:12"
    );
    assert_eq!(
        Command::SelectLayout { session: s(), window: 3, layout: Layout::EvenVertical }.render(),
        "tmux select-layout -t s:3 even-vertical"
    );
    assert_eq!(Command::HasSession { session: s() }.render(), "tmux has-session -t s");
    assert_eq!(Command::AttachSession { session: s() }.render(), "tmux attach-session -t s");
    assert_eq!(Command::Shell { text: "make".to_string() }.render(), "make");
}

#[test]
fn command_failures() {
    assert!(command_outcome(true, Some(0), String::new()).is_ok());
    let e = command_outcome(false, Some(2), "boom".to_string()).unwrap_err();
    assert_eq!(e.code, Some(2));
    assert_eq!(e.message(), "Command failed with exit code 2: boom");
    let e = command_outcome(false, Some(-1), "x".to_string()).unwrap_err();
    assert_eq!(e.message(), "Command failed with exit code -1: x");
    let e = command_outcome(false, Some(i32::MIN), String::new()).unwrap_err();
    assert_eq!(e.message(), format!("Command failed with exit code {}: ", i32::MIN));
    let e = command_outcome(false, None, "killed".to_string()).unwrap_err();
    assert_eq!(e.message(), "Command failed without an exit code: killed");
}

#[test]
fn new_config_is_empty() {
    let c = Config::new();
    assert!(c.session_name.is_empty());
    assert!(c.focus_window.is_none());
    assert!(c.defaults.is_none());
    assert!(c.windows.is_empty());
}

#[test]
fn session_name_falls_back_to_directory() {
    let mut c = Config::new();
    assert_eq!(session_name(&c, "proj"), "proj");
    c.session_name = "dev".to_string();
    assert_eq!(session_name(&c, "proj"), "dev");
}

#[test]
fn invocations() {
    let a = TmuxSetup { template: Some("t".to_string()), command: None };
    assert!(matches!(a.invocation(), Invocation::Template { name } if name == "t"));
    let a = TmuxSetup {
        template: None,
        command: Some(Commands::Wizard { create_template: Some("n".to_string()) }),
    };
    assert!(matches!(a.invocation(), Invocation::Wizard { create_template: Some(n) } if n == "n"));
    let a = TmuxSetup { template: None, command: None };
    assert!(matches!(a.invocation(), Invocation::DefaultFile));
    assert_eq!(default_config_path(), "tmux.conf.yml");
}
