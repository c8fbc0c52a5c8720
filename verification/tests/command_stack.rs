use render_baby::command_stack::{Command, CommandBuilder, CommandStack};

fn cmd(execute: u64, rollback: Option<u64>, ty: u32, last: bool) -> Command<u32> {
    Command { execute, rollback, command_type: ty, rollback_is_last_execute: last }
}

#[test]
fn execute_returns_its_callback() {
    let mut s: CommandStack<u32> = CommandStack::new();
    assert_eq!(s.execute(cmd(1, Some(2), 7, false)), 1);
}

#[test]
fn rollback_runs_rollback_callback_and_redo_runs_execute() {
    let mut s: CommandStack<u32> = CommandStack::new();
    s.execute(cmd(1, Some(2), 7, false));
    s.execute(cmd(3, Some(4), 7, false));
    assert_eq!(s.rollback(), Some(4));
    assert_eq!(s.rollback(), Some(2));
    assert_eq!(s.rollback(), None);
    assert_eq!(s.reexecute(), Some(1));
    assert_eq!(s.reexecute(), Some(3));
    assert_eq!(s.reexecute(), None);
    // the stack is back where it was: the next rollback reverts the second command
    assert_eq!(s.rollback(), Some(4));
}

#[test]
fn rollback_without_rollback_callback_runs_nothing() {
    let mut s: CommandStack<u32> = CommandStack::new();
    s.execute(cmd(1, None, 7, false));
    assert_eq!(s.rollback(), None);
    // the command still moved to the redo side
    assert_eq!(s.reexecute(), Some(1));
}

#[test]
fn rollback_is_last_execute_reruns_previous_command_of_same_type() {
    let mut s: CommandStack<u32> = CommandStack::new();
    s.execute(cmd(10, None, 1, false)); // set fov 40
    s.execute(cmd(20, None, 2, false)); // another kind
    s.execute(cmd(30, None, 1, true)); // set fov 60, undone by re-running fov 40
    assert_eq!(s.rollback(), Some(10));
    assert_eq!(s.rollback(), None); // type 2 has no rollback callback
    assert_eq!(s.rollback(), None);
}

#[test]
fn rollback_is_last_execute_without_earlier_command_runs_nothing() {
    let mut s: CommandStack<u32> = CommandStack::new();
    s.execute(cmd(20, None, 2, false));
    s.execute(cmd(30, Some(31), 1, true));
    assert_eq!(s.rollback(), None);
}

#[test]
fn executing_clears_redo_history() {
    let mut s: CommandStack<u32> = CommandStack::new();
    s.execute(cmd(1, Some(2), 7, false));
    assert_eq!(s.rollback(), Some(2));
    s.execute(cmd(5, Some(6), 7, false));
    assert_eq!(s.reexecute(), None);
    assert_eq!(s.rollback(), Some(6));
    assert_eq!(s.rollback(), None);
}

#[test]
fn builder_builds_command() {
    let c = CommandBuilder::new().execute(11).rollback(12).command_type(3u32).build();
    assert_eq!(c.execute, 11);
    assert_eq!(c.rollback, Some(12));
    assert_eq!(c.command_type, 3);
    assert!(!c.rollback_is_last_execute);
    let d = CommandBuilder::new().command_type(4u32).execute(9).rollback_is_last_execute().build();
    assert_eq!(d.execute, 9);
    assert_eq!(d.rollback, None);
    assert!(d.rollback_is_last_execute);
}

