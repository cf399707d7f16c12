//! The UI-visible state and its mathematical view.
//!
//! The toolkit's UI object holds these fields; the embedding binary copies
//! them in and out around each handler invocation, so every transition on
//! them is a verified function of this crate.

use vstd::prelude::*;

verus! {

/// The two-valued theme flag shown by the theme switcher.
#[derive(Clone, Copy, Debug, PartialEq, Eq, Structural)]
pub enum Theme {
    Light,
    Dark,
}

/// The other theme: light for dark, dark for light.
pub open spec fn spec_toggle(t: Theme) -> Theme {
    match t {
        Theme::Light => Theme::Dark,
        Theme::Dark => Theme::Light,
    }
}

/// The theme's name as the UI displays it.
pub open spec fn spec_theme_name(t: Theme) -> Seq<char> {
    match t {
        Theme::Light => "light"@,
        Theme::Dark => "dark"@,
    }
}

impl Theme {
    /// The other theme.
    pub fn toggled(self) -> (r: Theme)
        ensures
            r == spec_toggle(self),
    {
        match self {
            Theme::Light => Theme::Dark,
            Theme::Dark => Theme::Light,
        }
    }

    /// The theme's display name.
    pub fn name(self) -> (r: &'static str)
        ensures
            r@ == spec_theme_name(self),
    {
        match self {
            Theme::Light => "light",
            Theme::Dark => "dark",
        }
    }
}

/// The mathematical view of [`AppState`]: integers and character sequences in
/// place of machine integers and heap strings.
#[verifier::ext_equal]
pub ghost struct AppStateView {
    pub counter: int,
    pub theme: Theme,
    pub notification: Seq<char>,
    pub status: Seq<char>,
    pub platform_info: Seq<char>,
    pub test_results: Seq<char>,
}

/// Every field the UI displays: one current value each, overwritten wholesale
/// by the handler that owns it.
pub struct AppState {
    /// The click counter: incremented by one per increment event, reset to
    /// zero by the reset event.
    pub counter: i32,
    /// The current theme flag.
    pub theme: Theme,
    /// The notification line written by the button, card and switch handlers.
    pub notification: String,
    /// The status line written by the theme handler.
    pub status: String,
    /// The platform description shown on request.
    pub platform_info: String,
    /// The feature-test report shown on request.
    pub test_results: String,
}

impl View for AppState {
    type V = AppStateView;

    open spec fn view(&self) -> AppStateView {
        AppStateView {
            counter: self.counter as int,
            theme: self.theme,
            notification: self.notification@,
            status: self.status@,
            platform_info: self.platform_info@,
            test_results: self.test_results@,
        }
    }
}

impl AppState {
    /// A freshly constructed window: counter at zero, light theme, all text
    /// fields empty.
    pub fn new() -> (r: AppState)
        ensures
            r@.counter == 0,
            r@.theme == Theme::Light,
            r@.notification == Seq::<char>::empty(),
            r@.status == Seq::<char>::empty(),
            r@.platform_info == Seq::<char>::empty(),
            r@.test_results == Seq::<char>::empty(),
    {
        AppState {
            counter: 0,
            theme: Theme::Light,
            notification: String::new(),
            status: String::new(),
            platform_info: String::new(),
            test_results: String::new(),
        }
    }
}

} // verus!
