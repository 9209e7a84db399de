use vstd::prelude::*;
use vstd::string::*;

verus! {

/// The five arrangements that tmux knows by name.
#[derive(Debug, Clone, Copy, PartialEq, Eq, Structural)]
pub enum Layout {
    EvenHorizontal,
    EvenVertical,
    MainHorizontal,
    MainVertical,
    Tiled,
}

/// The token that tmux's `select-layout` takes for a layout.
pub open spec fn layout_token(l: Layout) -> Seq<char> {
    match l {
        Layout::EvenHorizontal => "even-horizontal"@,
        Layout::EvenVertical => "even-vertical"@,
        Layout::MainHorizontal => "main-horizontal"@,
        Layout::MainVertical => "main-vertical"@,
        Layout::Tiled => "tiled"@,
    }
}

/// Whether a layout's token names a vertical arrangement; panes of such a
/// window are split vertically.
pub open spec fn layout_is_vertical(l: Option<Layout>) -> bool {
    match l {
        Some(Layout::EvenVertical) => true,
        Some(Layout::MainVertical) => true,
        _ => false,
    }
}

impl Layout {
    /// The lowercase, hyphenated token of this layout.
    pub fn to_string(&self) -> (r: String)
        ensures
            r@ == layout_token(*self),
    {
        match self {
            Layout::EvenHorizontal => String::from_str("even-horizontal"),
            Layout::EvenVertical => String::from_str("even-vertical"),
            Layout::MainHorizontal => String::from_str("main-horizontal"),
            Layout::MainVertical => String::from_str("main-vertical"),
            Layout::Tiled => String::from_str("tiled"),
        }
    }

    /// Whether panes under this layout are split vertically (its token holds "vertical").
    pub fn is_vertical(&self) -> (r: bool)
        ensures
            r == layout_is_vertical(Some(*self)),
    {
        match self {
            Layout::EvenVertical | Layout::MainVertical => true,
            _ => false,
        }
    }
}

/// Values that windows and panes fall back on, and the session's own hooks.
#[derive(Debug, Clone)]
pub struct Defaults {
    pub directory: Option<String>,
    pub initial_command: Option<String>,
    pub dependencies: Option<Vec<String>>,
    pub pre_command: Option<String>,
    pub post_command: Option<String>,
    pub branch: Option<String>,
}

/// One pane of a window.
#[derive(Debug, Clone)]
pub struct Pane {
    pub directory: Option<String>,
    pub initial_command: String,
    pub pre_command: Option<String>,
    pub post_command: Option<String>,
}

/// One window of the session, in the order the windows are numbered.
#[derive(Debug, Clone)]
pub struct Window {
    pub name: String,
    pub directory: Option<String>,
    pub initial_command: Option<String>,
    pub layout: Option<Layout>,
    pub git_branch: Option<String>,
    pub panes: Option<Vec<Pane>>,
    pub pre_command: Option<String>,
    pub post_command: Option<String>,
}

/// The whole workspace description.
#[derive(Debug, Clone)]
pub struct Config {
    pub session_name: String,
    pub focus_window: Option<usize>,
    pub defaults: Option<Defaults>,
    pub windows: Vec<Window>,
}

/// The panes of a window, none when the list is absent.
pub open spec fn window_panes(w: Window) -> Seq<Pane> {
    match w.panes {
        Some(v) => v@,
        None => Seq::empty(),
    }
}

impl Config {
    /// An empty configuration: no name, no defaults, no windows.
    pub fn new() -> (r: Config)
        ensures
            r.session_name@ == Seq::<char>::empty(),
            r.focus_window.is_none(),
            r.defaults.is_none(),
            r.windows@ == Seq::<Window>::empty(),
    {
        Config {
            session_name: String::new(),
            focus_window: None,
            defaults: None,
            windows: Vec::new(),
        }
    }
}

} // verus!
