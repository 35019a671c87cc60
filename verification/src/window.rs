//! The command that brings up the main window.

use vstd::prelude::*;
use vstd::string::*;

verus! {

/// What is known of the window labelled `main`.
#[derive(Clone, Copy, Debug, PartialEq, Eq, Structural)]
pub struct MainWindow {
    pub exists: bool,
    pub visible: bool,
    pub focused: bool,
}

/// How a window is to be built.
#[derive(Clone, Debug, PartialEq, Eq)]
pub struct WindowSpec {
    pub label: String,
    pub url: String,
    pub title: String,
    pub width: u32,
    pub height: u32,
    pub visible: bool,
}

/// The mathematical content of a [`WindowSpec`].
pub struct WindowSpecModel {
    pub label: Seq<char>,
    pub url: Seq<char>,
    pub title: Seq<char>,
    pub width: nat,
    pub height: nat,
    pub visible: bool,
}

impl View for WindowSpec {
    type V = WindowSpecModel;

    open spec fn view(&self) -> WindowSpecModel {
        WindowSpecModel {
            label: self.label@,
            url: self.url@,
            title: self.title@,
            width: self.width as nat,
            height: self.height as nat,
            visible: self.visible,
        }
    }
}

/// What the host is to do with the main window.
#[derive(Clone, Debug, PartialEq, Eq)]
pub enum WindowAction {
    /// Show the window and give it the input focus.
    ShowAndFocus,
    /// Build the window and register it under its label.
    Create(WindowSpec),
}

/// The main window as it is built: at the root document, 800 by 600, hidden.
pub open spec fn main_window_model() -> WindowSpecModel {
    WindowSpecModel {
        label: "main"@,
        url: "/index.html"@,
        title: "RustDuck"@,
        width: 800,
        height: 600,
        visible: false,
    }
}

/// The main window after the command: one that exists is visible and has the
/// focus; one that did not exist has been built, hidden.
pub open spec fn after_open(window: MainWindow) -> MainWindow {
    if window.exists {
        MainWindow { exists: true, visible: true, focused: true }
    } else {
        MainWindow { exists: true, visible: false, focused: false }
    }
}

/// Decides how to bring up the main window, and records the outcome in
/// `window`.
pub fn open_main_window(window: &mut MainWindow) -> (action: WindowAction)
    ensures
        *final(window) == after_open(*old(window)),
        old(window).exists ==> action is ShowAndFocus,
        !old(window).exists ==> (action matches WindowAction::Create(spec) && spec@
            == main_window_model()),
{
    if window.exists {
        window.visible = true;
        window.focused = true;
        WindowAction::ShowAndFocus
    } else {
        window.exists = true;
        window.visible = false;
        window.focused = false;
        WindowAction::Create(
            WindowSpec {
                label: String::from_str("main"),
                url: String::from_str("/index.html"),
                title: String::from_str("RustDuck"),
                width: 800,
                height: 600,
                visible: false,
            },
        )
    }
}

/// Opening the main window is idempotent once the window exists: a second
/// command leaves it as the first did, visible and focused.
pub proof fn law_open_is_idempotent(window: MainWindow)
    requires
        window.exists,
    ensures
        after_open(after_open(window)) == after_open(window),
        after_open(window).visible,
        after_open(window).focused,
{
}

/// Whatever the window was, after the command it exists, and a further
/// command shows and focuses it.
pub proof fn law_open_then_open_shows(window: MainWindow)
    ensures
        after_open(window).exists,
        after_open(after_open(window)) == (MainWindow {
            exists: true,
            visible: true,
            focused: true,
        }),
{
}

} // verus!
