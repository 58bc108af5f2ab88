use runner::window::{Delegate, WindowCommand};

#[test]
fn toggle_before_window_exists_does_nothing() {
    let mut d = Delegate::new();
    assert_eq!(d.toggle_window_visibility(), WindowCommand::Nothing);
    assert_eq!(d.window, None);
}

#[test]
fn toggle_leaves_visible_window_alone() {
    let mut d = Delegate::new();
    d.window_shown();
    assert_eq!(d.window, Some(true));
    assert_eq!(d.toggle_window_visibility(), WindowCommand::Nothing);
    assert_eq!(d.window, Some(true));
}

#[test]
fn toggle_shows_hidden_window() {
    let mut d = Delegate { window: Some(false) };
    assert_eq!(d.toggle_window_visibility(), WindowCommand::MakeKeyAndOrderFront);
    assert_eq!(d.window, Some(true));
}

#[test]
fn many_toggles_act_as_one() {
    let mut d = Delegate { window: Some(false) };
    let mut shown = 0;
    for _ in 0..4 {
        if d.toggle_window_visibility() == WindowCommand::MakeKeyAndOrderFront {
            shown += 1;
        }
    }
    assert_eq!(shown, 1);
    assert_eq!(d.window, Some(true));
}
