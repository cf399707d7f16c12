//! The callback handlers: one pure state transition per UI event.
//!
//! The toolkit's event loop invokes a registered closure per named event; the
//! closure resolves a weak handle to the UI object and, when the object is
//! still alive, forwards to [`deliver_event`].  Each transition overwrites
//! exactly one field of [`AppState`] and is specified, field by field, by
//! [`spec_dispatch`].

use vstd::prelude::*;
use vstd::string::StringExecFns;
use crate::platform::{
    platform_report, spec_platform_report, spec_test_report, Target, test_report,
};
use crate::state::{AppState, AppStateView, spec_theme_name, spec_toggle, Theme};
use crate::text::{i32_to_string, spec_i32_decimal};

verus! {

/// The named UI events the handlers are registered against.
#[derive(Clone, Copy, Debug, PartialEq, Eq, Structural)]
pub enum Event {
    /// The counter button was clicked.
    Increment,
    /// The counter reset button was clicked.
    Reset,
    /// The primary demo button was clicked.
    PrimaryButton,
    /// The secondary demo button was clicked.
    SecondaryButton,
    /// The card with the given index was clicked.
    CardClick(i32),
    /// The demo switch was toggled to the given position.
    SwitchToggle(bool),
    /// The theme switcher was clicked.
    ToggleTheme,
    /// The platform-info button was clicked.
    ShowPlatformInfo,
    /// The feature-test button was clicked.
    TestFeatures,
}

/// The notification line for a card click: the card's index between the two
/// literal fragments.
pub open spec fn spec_card_message(index: int) -> Seq<char> {
    "Card "@ + spec_i32_decimal(index) + " clicked!"@
}

/// The notification line for a switch toggle.
pub open spec fn spec_switch_message(is_on: bool) -> Seq<char> {
    if is_on {
        "Switch is now ON"@
    } else {
        "Switch is now OFF"@
    }
}

/// The status line after a theme change.
pub open spec fn spec_theme_message(t: Theme) -> Seq<char> {
    "Theme changed to "@ + spec_theme_name(t)
}

/// What one event does to the state: each event overwrites exactly one field
/// and leaves the rest as they were.  Only the two platform events read the
/// target, so handlers for the other events may state their contract with any
/// target value.
pub open spec fn spec_dispatch(s: AppStateView, target: Target, event: Event) -> AppStateView {
    match event {
        Event::Increment => AppStateView { counter: s.counter + 1, ..s },
        Event::Reset => AppStateView { counter: 0, ..s },
        Event::PrimaryButton => AppStateView { notification: "Primary button clicked!"@, ..s },
        Event::SecondaryButton => AppStateView { notification: "Secondary button clicked!"@, ..s },
        Event::CardClick(index) => AppStateView { notification: spec_card_message(index as int), ..s },
        Event::SwitchToggle(is_on) => AppStateView { notification: spec_switch_message(is_on), ..s },
        Event::ToggleTheme => AppStateView {
            theme: spec_toggle(s.theme),
            status: spec_theme_message(spec_toggle(s.theme)),
            ..s
        },
        Event::ShowPlatformInfo => AppStateView { platform_info: spec_platform_report(target), ..s },
        Event::TestFeatures => AppStateView { test_results: spec_test_report(target), ..s },
    }
}

/// Increments the stored counter by one.
pub fn handle_increment(state: &mut AppState)
    requires
        old(state).counter < i32::MAX,
    ensures
        final(state)@ == spec_dispatch(old(state)@, Target::Other, Event::Increment),
{
    state.counter = state.counter + 1;
    proof {
        assert(state@ =~= spec_dispatch(old(state)@, Target::Other, Event::Increment));
    }
}

/// Resets the stored counter to zero.
pub fn handle_reset(state: &mut AppState)
    ensures
        final(state)@ == spec_dispatch(old(state)@, Target::Other, Event::Reset),
{
    state.counter = 0;
    proof {
        assert(state@ =~= spec_dispatch(old(state)@, Target::Other, Event::Reset));
    }
}

/// Writes the primary-button notification.
pub fn handle_primary_button(state: &mut AppState)
    ensures
        final(state)@ == spec_dispatch(old(state)@, Target::Other, Event::PrimaryButton),
{
    state.notification = String::from_str("Primary button clicked!");
    proof {
        assert(state@ =~= spec_dispatch(old(state)@, Target::Other, Event::PrimaryButton));
    }
}

/// Writes the secondary-button notification.
pub fn handle_secondary_button(state: &mut AppState)
    ensures
        final(state)@ == spec_dispatch(old(state)@, Target::Other, Event::SecondaryButton),
{
    state.notification = String::from_str("Secondary button clicked!");
    proof {
        assert(state@ =~= spec_dispatch(old(state)@, Target::Other, Event::SecondaryButton));
    }
}

/// Writes the card-click notification naming the clicked card's index.
pub fn handle_card_click(state: &mut AppState, index: i32)
    ensures
        final(state)@ == spec_dispatch(old(state)@, Target::Other, Event::CardClick(index)),
{
    let mut message = String::from_str("Card ");
    let digits = i32_to_string(index);
    message.append(digits.as_str());
    message.append(" clicked!");
    state.notification = message;
    proof {
        assert(state@ =~= spec_dispatch(old(state)@, Target::Other, Event::CardClick(index)));
    }
}

/// Writes the switch notification naming the new position.
pub fn handle_switch_toggle(state: &mut AppState, is_on: bool)
    ensures
        final(state)@ == spec_dispatch(old(state)@, Target::Other, Event::SwitchToggle(is_on)),
{
    if is_on {
        state.notification = String::from_str("Switch is now ON");
    } else {
        state.notification = String::from_str("Switch is now OFF");
    }
    proof {
        assert(state@ =~= spec_dispatch(old(state)@, Target::Other, Event::SwitchToggle(is_on)));
    }
}

/// Flips the theme flag and writes the status line naming the new theme.
pub fn handle_toggle_theme(state: &mut AppState)
    ensures
        final(state)@ == spec_dispatch(old(state)@, Target::Other, Event::ToggleTheme),
{
    let new_theme = state.theme.toggled();
    state.theme = new_theme;
    let mut message = String::from_str("Theme changed to ");
    message.append(new_theme.name());
    state.status = message;
    proof {
        assert(state@ =~= spec_dispatch(old(state)@, Target::Other, Event::ToggleTheme));
    }
}

/// Writes the platform report for the build target.
pub fn handle_show_platform_info(state: &mut AppState, target: Target)
    ensures
        final(state)@ == spec_dispatch(old(state)@, target, Event::ShowPlatformInfo),
{
    state.platform_info = platform_report(target);
    proof {
        assert(state@ =~= spec_dispatch(old(state)@, target, Event::ShowPlatformInfo));
    }
}

/// Writes the feature-test report for the build target.
pub fn handle_test_features(state: &mut AppState, target: Target)
    ensures
        final(state)@ == spec_dispatch(old(state)@, target, Event::TestFeatures),
{
    state.test_results = test_report(target);
    proof {
        assert(state@ =~= spec_dispatch(old(state)@, target, Event::TestFeatures));
    }
}

/// Routes one event to its handler.
pub fn dispatch(state: &mut AppState, target: Target, event: Event)
    requires
        event is Increment ==> old(state).counter < i32::MAX,
    ensures
        final(state)@ == spec_dispatch(old(state)@, target, event),
{
    match event {
        Event::Increment => handle_increment(state),
        Event::Reset => handle_reset(state),
        Event::PrimaryButton => handle_primary_button(state),
        Event::SecondaryButton => handle_secondary_button(state),
        Event::CardClick(index) => handle_card_click(state, index),
        Event::SwitchToggle(is_on) => handle_switch_toggle(state, is_on),
        Event::ToggleTheme => handle_toggle_theme(state),
        Event::ShowPlatformInfo => handle_show_platform_info(state, target),
        Event::TestFeatures => handle_test_features(state, target),
    }
}

/// What a registered callback does once the event loop fires it: resolve the
/// weak handle to the UI object and, only when the object is still alive,
/// run the transition.  A failed upgrade — the window was already destroyed —
/// is a silent no-op, not an error: the state is left exactly as it was.
pub fn deliver_event(live: bool, state: &mut AppState, target: Target, event: Event)
    requires
        live && event is Increment ==> old(state).counter < i32::MAX,
    ensures
        live ==> final(state)@ == spec_dispatch(old(state)@, target, event),
        !live ==> *final(state) == *old(state),
{
    if live {
        dispatch(state, target, event);
    }
}

/// The state after the same event has been delivered `n` times.
pub open spec fn spec_dispatch_n(s: AppStateView, target: Target, event: Event, n: nat) -> AppStateView
    decreases n,
{
    if n == 0 {
        s
    } else {
        spec_dispatch(spec_dispatch_n(s, target, event, (n - 1) as nat), target, event)
    }
}

/// Delivering the increment event `n` times adds `n` to the counter; from a
/// zero initial counter the stored value is therefore exactly `n`.
pub proof fn lemma_increment_n_counts(s: AppStateView, target: Target, n: nat)
    ensures
        spec_dispatch_n(s, target, Event::Increment, n).counter == s.counter + n,
    decreases n,
{
    if n > 0 {
        lemma_increment_n_counts(s, target, (n - 1) as nat);
    }
}

/// The reset event yields a stored counter of zero after any number of
/// increments.
pub proof fn lemma_reset_after_increments(s: AppStateView, target: Target, n: nat)
    ensures
        spec_dispatch(spec_dispatch_n(s, target, Event::Increment, n), target, Event::Reset).counter
            == 0,
{
}

/// Toggling the theme twice returns the flag to its starting value, from
/// either starting value.
pub proof fn lemma_theme_toggle_involution(s: AppStateView, target: Target)
    ensures
        spec_dispatch(spec_dispatch(s, target, Event::ToggleTheme), target, Event::ToggleTheme).theme
            == s.theme,
{
}

} // verus!
