use render_baby::control::view::{Event, FrameInput, MainView, ViewAction};

fn quiet_frame() -> FrameInput {
    FrameInput {
        render_output_ready: false,
        toggle_log_clicked: false,
        obj_pick: None,
        scene_pick: None,
        render_clicked: false,
        fov_changed: false,
        width_edit: None,
        height_edit: None,
    }
}

fn is_notify(a: &ViewAction, e: Event) -> bool {
    matches!(a, ViewAction::Notify(x) if *x == e)
}

#[test]
fn new_window_renders_once_at_start() {
    let mut view = MainView::new();
    assert!(view.at_start);
    assert!(view.bottom_visible);
    let first = view.update(quiet_frame());
    assert_eq!(first.len(), 1);
    assert!(is_notify(&first[0], Event::DoRender));
    assert!(!view.at_start);
    let second = view.update(quiet_frame());
    assert!(second.is_empty());
}

#[test]
fn toggle_log_view_flips_visibility() {
    let mut view = MainView::new();
    let mut input = quiet_frame();
    input.toggle_log_clicked = true;
    view.update(input);
    assert!(!view.bottom_visible);
    let mut input = quiet_frame();
    input.toggle_log_clicked = true;
    view.update(input);
    assert!(view.bottom_visible);
}

#[test]
fn picked_obj_file_is_remembered_and_submitted() {
    let mut view = MainView::new();
    view.update(quiet_frame());
    let mut input = quiet_frame();
    input.obj_pick = Some(Some(String::from("cube.obj")));
    let actions = view.update(input);
    assert_eq!(actions.len(), 2);
    assert!(matches!(&actions[0], ViewAction::SubmitObjPath(p) if p == "cube.obj"));
    assert!(is_notify(&actions[1], Event::ImportObj));
    assert_eq!(view.obj_path, Some(String::from("cube.obj")));
}

#[test]
fn cancelled_scene_dialog_still_notifies() {
    let mut view = MainView::new();
    view.scene_path = Some(String::from("old.json"));
    let actions = view.set_scene_filepath(None);
    assert_eq!(actions.len(), 1);
    assert!(is_notify(&actions[0], Event::ImportScene));
    assert_eq!(view.scene_path, Some(String::from("old.json")));
}

#[test]
fn frame_actions_come_in_panel_order() {
    let mut view = MainView::new();
    let input = FrameInput {
        render_output_ready: true,
        toggle_log_clicked: false,
        obj_pick: Some(None),
        scene_pick: Some(Some(String::from("s.json"))),
        render_clicked: true,
        fov_changed: true,
        width_edit: Some(640),
        height_edit: Some(480),
    };
    let actions = view.update(input);
    assert_eq!(actions.len(), 10);
    assert!(is_notify(&actions[0], Event::DoRender));
    assert!(matches!(actions[1], ViewAction::ShowRenderOutput));
    assert!(is_notify(&actions[2], Event::ImportObj));
    assert!(matches!(&actions[3], ViewAction::SubmitScenePath(p) if p == "s.json"));
    assert!(is_notify(&actions[4], Event::ImportScene));
    assert!(is_notify(&actions[5], Event::DoRender));
    assert!(matches!(actions[6], ViewAction::ApplyFov));
    assert!(is_notify(&actions[7], Event::DoRender));
    assert!(matches!(actions[8], ViewAction::SetWidth(640)));
    assert!(matches!(actions[9], ViewAction::SetHeight(480)));
    assert_eq!(view.scene_path, Some(String::from("s.json")));
    assert_eq!(view.obj_path, None);
}
