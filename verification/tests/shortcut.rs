use presenter::route::Route;
use presenter::shortcut::{dispatch, Action, Subscription, ENTER, ESCAPE, F};

#[test]
fn home_f_without_text_input_focuses_search() {
    let r = dispatch(Some(Route::Home), F, false);
    assert_eq!(r.action, Some(Action::FocusSearch));
    assert!(r.prevent_default);
}

#[test]
fn home_f_on_text_input_is_ignored() {
    let r = dispatch(Some(Route::Home), F, true);
    assert_eq!(r.action, None);
    assert!(!r.prevent_default);
}

#[test]
fn home_escape_blurs_search_outside_text_input() {
    let r = dispatch(Some(Route::Home), ESCAPE, false);
    assert_eq!(r.action, Some(Action::BlurSearch));
    assert!(r.prevent_default);
}

#[test]
fn home_escape_blurs_search_on_text_input() {
    let r = dispatch(Some(Route::Home), ESCAPE, true);
    assert_eq!(r.action, Some(Action::BlurSearch));
    assert!(r.prevent_default);
}

#[test]
fn home_enter_is_ignored() {
    let r = dispatch(Some(Route::Home), ENTER, false);
    assert_eq!(r.action, None);
    assert!(!r.prevent_default);
}

#[test]
fn task_escape_without_text_input_closes_task() {
    let r = dispatch(Some(Route::Task(7)), ESCAPE, false);
    assert_eq!(r.action, Some(Action::CloseActiveTask));
    assert!(r.prevent_default);
}

#[test]
fn task_escape_on_text_input_is_ignored() {
    let r = dispatch(Some(Route::Task(7)), ESCAPE, true);
    assert_eq!(r.action, None);
    assert!(!r.prevent_default);
}

#[test]
fn task_enter_submits_form_outside_text_input() {
    let r = dispatch(Some(Route::Task(1)), ENTER, false);
    assert_eq!(r.action, Some(Action::SubmitActiveForm));
    assert!(r.prevent_default);
}

#[test]
fn task_enter_submits_form_on_text_input() {
    let r = dispatch(Some(Route::Task(1)), ENTER, true);
    assert_eq!(r.action, Some(Action::SubmitActiveForm));
    assert!(r.prevent_default);
}

#[test]
fn task_f_is_ignored() {
    let r = dispatch(Some(Route::Task(3)), F, false);
    assert_eq!(r.action, None);
    assert!(!r.prevent_default);
}

#[test]
fn unresolved_route_is_ignored() {
    for key in [ENTER, ESCAPE, F, 65] {
        for text_input in [false, true] {
            let r = dispatch(None, key, text_input);
            assert_eq!(r.action, None);
            assert!(!r.prevent_default);
        }
    }
}

#[test]
fn unmatched_key_keeps_default_on_every_route() {
    for route in [Some(Route::Home), Some(Route::Task(0)), Some(Route::Task(u64::MAX))] {
        for key in [0, 65, 90] {
            for text_input in [false, true] {
                let r = dispatch(route, key, text_input);
                assert_eq!(r.action, None);
                assert!(!r.prevent_default);
            }
        }
    }
}

#[test]
fn key_codes_match_the_keydown_codes() {
    assert_eq!(ENTER, 13);
    assert_eq!(ESCAPE, 27);
    assert_eq!(F, 70);
}

#[test]
fn subscription_installs_active() {
    let s = Subscription::install();
    assert!(s.is_active());
}

#[test]
fn subscription_dispose_is_idempotent() {
    let mut s = Subscription::install();
    s.dispose();
    assert!(!s.is_active());
    s.dispose();
    assert!(!s.is_active());
}
