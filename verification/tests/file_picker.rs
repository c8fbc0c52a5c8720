use render_baby::file_picker::{PickError, DialogGuard};

#[test]
fn second_dialog_is_refused_while_first_runs() {
    let mut guard = DialogGuard::new();
    assert!(!guard.is_running());
    assert_eq!(guard.begin(), Ok(()));
    assert!(guard.is_running());
    assert_eq!(guard.begin(), Err(PickError::AlreadyRunning));
    assert!(guard.is_running());
}

#[test]
fn finished_dialog_frees_the_guard() {
    let mut guard = DialogGuard::new();
    guard.begin().unwrap();
    assert_eq!(guard.finish(Some(String::from("a.obj"))), Ok(String::from("a.obj")));
    assert!(!guard.is_running());
    assert_eq!(guard.begin(), Ok(()));
}

#[test]
fn cancelled_dialog_reports_nothing_selected() {
    let mut guard = DialogGuard::new();
    guard.begin().unwrap();
    assert_eq!(guard.finish::<String>(None), Err(PickError::NothingSelected));
    assert!(!guard.is_running());
}

#[test]
fn pick_error_messages() {
    assert_eq!(PickError::AlreadyRunning.message(), "File picker already running");
    assert_eq!(PickError::NothingSelected.message(), "No file(s)/path(s) selected");
}
