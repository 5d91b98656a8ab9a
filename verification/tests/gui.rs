use game_server::gui::{
    default_search_queries, initial_camera, matches_search, should_detach, text_contains,
    update_focus, EguiWindow, FocusChange,
};

#[test]
fn tabs() {
    assert!(!EguiWindow::GameView.clear_background());
    assert!(EguiWindow::Inspector.clear_background());
    assert_eq!(EguiWindow::Resources.title(), "Resources");
    let q = default_search_queries();
    assert_eq!(q.len(), 5);
    assert!(q.iter().all(|(_, s)| s.is_empty()));
}

#[test]
fn search_filters_ignore_case() {
    assert!(matches_search("Time<Virtual>", ""));
    assert!(matches_search("Time<Virtual>", "virt"));
    assert!(!matches_search("Time<Virtual>", "real"));
    assert!(text_contains("abc", "bc"));
    assert!(!text_contains("abc", "abcd"));
}

#[test]
fn camera_decisions() {
    assert_eq!(initial_camera(None, &vec![7]), Some(7));
    assert_eq!(initial_camera(None, &vec![7, 8]), None);
    assert_eq!(initial_camera(Some(3), &vec![]), Some(3));
    assert_eq!(update_focus(true, true, true), FocusChange::Release);
    assert_eq!(update_focus(false, true, true), FocusChange::Grab);
    assert_eq!(update_focus(false, true, false), FocusChange::Keep);
    assert!(should_detach(true, true, false, true));
    assert!(!should_detach(true, false, true, true));
}
