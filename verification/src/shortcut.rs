//! The shortcut dispatcher: decides, for one key event, which application
//! action to trigger and whether the browser's default behaviour is
//! suppressed.
//!
//! The dispatcher here is the pure decision core. The surrounding
//! application owns the one global `keydown` subscription: on each event it
//! resolves the active route and the event target, calls [`dispatch`], then
//! performs the returned action and calls the event's default-prevention
//! exactly when the outcome asks for it.

use crate::route::Route;
use vstd::prelude::*;

verus! {

/// The `keydown` key code of the Enter key.
pub const ENTER: u32 = 13;

/// The `keydown` key code of the Escape key.
pub const ESCAPE: u32 = 27;

/// The `keydown` key code of the F key.
pub const F: u32 = 70;

/// A named, externally defined operation invoked in response to a matched
/// shortcut. The dispatcher only picks the action; what it does is the
/// controller's business.
#[derive(Clone, Copy, PartialEq, Eq, Structural, Debug)]
pub enum Action {
    /// Move focus into the search bar (Home screen).
    FocusSearch,
    /// Drop focus from the search bar (Home screen).
    BlurSearch,
    /// Close the task-detail view, dispatched as a detached asynchronous
    /// call against a weak handle to the running application.
    CloseActiveTask,
    /// Locate the submit control scoped to the task-details region and
    /// activate it directly.
    SubmitActiveForm,
}

/// What the dispatcher decided for one key event: at most one action, and
/// whether the event's default behaviour is suppressed.
#[derive(Clone, Copy, PartialEq, Eq, Debug)]
pub struct Outcome {
    /// The action to perform, if any branch matched.
    pub action: Option<Action>,
    /// True exactly when a branch matched; unmatched keys leave the
    /// browser's native behaviour intact.
    pub prevent_default: bool,
}

/// The key-to-action table: which action, if any, a key event triggers
/// given the active route and whether focus sits on a text-input-like
/// element. `None` for the route means the route has not resolved yet, and
/// the event is ignored.
pub open spec fn spec_action(
    route: Option<Route>,
    key_code: u32,
    target_is_text_input: bool,
) -> Option<Action> {
    match route {
        None => None,
        Some(Route::Home) => if key_code == F && !target_is_text_input {
            Some(Action::FocusSearch)
        } else if key_code == ESCAPE {
            Some(Action::BlurSearch)
        } else {
            None
        },
        Some(Route::Task(_)) => if key_code == ESCAPE && !target_is_text_input {
            Some(Action::CloseActiveTask)
        } else if key_code == ENTER {
            Some(Action::SubmitActiveForm)
        } else {
            None
        },
    }
}

/// Default behaviour is suppressed exactly when some branch matched.
pub open spec fn spec_prevents_default(
    route: Option<Route>,
    key_code: u32,
    target_is_text_input: bool,
) -> bool {
    spec_action(route, key_code, target_is_text_input) is Some
}

/// Decide what one key event does.
///
/// The caller resolves the event's target (`target_is_text_input`) and the
/// active route beforehand; if either resolution fails it does not call
/// this function and leaves the event alone, so a broken shortcut never
/// blocks normal key input.
pub fn dispatch(route: Option<Route>, key_code: u32, target_is_text_input: bool) -> (r: Outcome)
    ensures
        r.action == spec_action(route, key_code, target_is_text_input),
        r.prevent_default == spec_prevents_default(route, key_code, target_is_text_input),
{
    let action: Option<Action> = match route {
        None => None,
        Some(Route::Home) => if key_code == F && !target_is_text_input {
            Some(Action::FocusSearch)
        } else if key_code == ESCAPE {
            Some(Action::BlurSearch)
        } else {
            None
        },
        Some(Route::Task(_)) => if key_code == ESCAPE && !target_is_text_input {
            Some(Action::CloseActiveTask)
        } else if key_code == ENTER {
            Some(Action::SubmitActiveForm)
        } else {
            None
        },
    };
    let prevent_default = action.is_some();
    Outcome { action, prevent_default }
}

/// While the route has not resolved yet, the dispatcher performs no action
/// and leaves the event's default behaviour intact, whatever the key and
/// focus target: the event behaves as if no shortcut handler were
/// installed.
pub proof fn lemma_unresolved_route_is_ignored(key_code: u32, target_is_text_input: bool)
    ensures
        spec_action(None, key_code, target_is_text_input) is None,
        !spec_prevents_default(None, key_code, target_is_text_input),
{
}

/// A key that no shortcut of the active route uses matches no branch and
/// never suppresses the default, so ordinary typing continues to work.
pub proof fn lemma_unmatched_key_keeps_default(
    route: Option<Route>,
    key_code: u32,
    target_is_text_input: bool,
)
    requires
        key_code != ENTER,
        key_code != ESCAPE,
        key_code != F,
    ensures
        spec_action(route, key_code, target_is_text_input) is None,
        !spec_prevents_default(route, key_code, target_is_text_input),
{
}

/// On the Home screen, pressing "F" while focus is not on a text input
/// triggers exactly the "focus search" action and suppresses the default;
/// while focus is on a text input it triggers nothing and leaves the
/// default intact, so typing the letter into an input is never hijacked.
pub proof fn lemma_home_f_focuses_search(target_is_text_input: bool)
    ensures
        !target_is_text_input ==> spec_action(Some(Route::Home), F, target_is_text_input)
            == Some(Action::FocusSearch),
        !target_is_text_input ==> spec_prevents_default(Some(Route::Home), F, target_is_text_input),
        target_is_text_input ==> spec_action(Some(Route::Home), F, target_is_text_input) is None,
        target_is_text_input ==> !spec_prevents_default(Some(Route::Home), F, target_is_text_input),
{
}

/// On the Home screen, pressing "Escape" triggers the "blur search"
/// action and suppresses the default, regardless of the focus target.
pub proof fn lemma_home_escape_blurs_search(target_is_text_input: bool)
    ensures
        spec_action(Some(Route::Home), ESCAPE, target_is_text_input) == Some(Action::BlurSearch),
        spec_prevents_default(Some(Route::Home), ESCAPE, target_is_text_input),
{
}

/// On a task-detail screen, pressing "Escape" while focus is not on a
/// text input triggers exactly the "close active task" action and
/// suppresses the default; while focus is on a text input it triggers
/// nothing and leaves the default intact, so Escape inside a text field
/// does not close the view. The task id plays no part.
pub proof fn lemma_task_escape_closes_task(id: u64, target_is_text_input: bool)
    ensures
        !target_is_text_input ==> spec_action(Some(Route::Task(id)), ESCAPE, target_is_text_input)
            == Some(Action::CloseActiveTask),
        !target_is_text_input ==> spec_prevents_default(
            Some(Route::Task(id)),
            ESCAPE,
            target_is_text_input,
        ),
        target_is_text_input ==> spec_action(Some(Route::Task(id)), ESCAPE, target_is_text_input)
            is None,
        target_is_text_input ==> !spec_prevents_default(
            Some(Route::Task(id)),
            ESCAPE,
            target_is_text_input,
        ),
{
}

/// On a task-detail screen, pressing "Enter" triggers the "submit active
/// form" action and suppresses the default, for any task id and any focus
/// target: the shortcut is meant to work while focus sits inside the
/// form's fields. The caller activates the submit control scoped to the
/// task-details region; when no such control exists it does nothing
/// rather than fail.
pub proof fn lemma_task_enter_submits_form(id: u64, target_is_text_input: bool)
    ensures
        spec_action(Some(Route::Task(id)), ENTER, target_is_text_input)
            == Some(Action::SubmitActiveForm),
        spec_prevents_default(Some(Route::Task(id)), ENTER, target_is_text_input),
{
}

/// The one process-wide key-event subscription, as this crate tracks it:
/// created once at application start, torn down at most once through the
/// disposable handle. The surrounding application pairs a value of this
/// type with the real listener registration it performs.
pub struct Subscription {
    /// Whether the subscription still listens.
    active: bool,
}

impl Subscription {
    /// Whether the subscription still listens.
    pub closed spec fn spec_active(&self) -> bool {
        self.active
    }

    /// Record the installation of the global `keydown` listener. The
    /// caller registers exactly one such listener, with default-prevention
    /// enabled, and keeps this handle as the only supported teardown path.
    pub fn install() -> (r: Subscription)
        ensures
            r.spec_active(),
    {
        Subscription { active: true }
    }

    /// Whether the subscription still listens.
    pub fn is_active(&self) -> (r: bool)
        ensures
            r == self.spec_active(),
    {
        self.active
    }

    /// Release the subscription. Disposing is idempotent: the handle ends
    /// up released whether or not it still listened before the call.
    pub fn dispose(&mut self)
        ensures
            !final(self).spec_active(),
    {
        self.active = false;
    }
}

} // verus!
