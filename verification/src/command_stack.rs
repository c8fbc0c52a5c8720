//! Undo/redo command stack.
//!
//! A [`Command`] names the callbacks that perform and revert an action by their
//! handles; the embedding application keeps the callbacks themselves and runs the
//! handle that each stack operation hands back.
use vstd::prelude::*;

verus! {

/// An undoable action.
///
/// `execute` is the handle of the callback that performs the action and `rollback`
/// the handle of the callback that reverts it, if any. When
/// `rollback_is_last_execute` is set, the action is reverted by re-running the
/// `execute` callback of the most recent earlier command of the same `command_type`.
pub struct Command<T> {
    pub execute: u64,
    pub rollback: Option<u64>,
    pub command_type: T,
    pub rollback_is_last_execute: bool,
}

/// The abstract state of a [`CommandStack`]: the executed commands (oldest first)
/// and the rolled-back commands (the next one to re-execute last).
pub struct StackState<T> {
    pub executed: Seq<Command<T>>,
    pub rolled_back: Seq<Command<T>>,
}

/// Index of the last command of type `t` in `s`, if there is one.
pub open spec fn last_index_of_type<T>(s: Seq<Command<T>>, t: T) -> Option<int>
    decreases s.len(),
{
    if s.len() == 0 {
        None
    } else if s.last().command_type == t {
        Some(s.len() - 1)
    } else {
        last_index_of_type(s.drop_last(), t)
    }
}

/// The callback that reverts `c` when the commands executed before it are `earlier`.
pub open spec fn rollback_callback<T>(c: Command<T>, earlier: Seq<Command<T>>) -> Option<u64> {
    if c.rollback_is_last_execute {
        match last_index_of_type(earlier, c.command_type) {
            Some(i) => Some(earlier[i].execute),
            None => None,
        }
    } else {
        c.rollback
    }
}

/// State after executing `c`: it joins the executed commands and the redo history is dropped.
pub open spec fn state_after_execute<T>(s: StackState<T>, c: Command<T>) -> StackState<T> {
    StackState { executed: s.executed.push(c), rolled_back: Seq::empty() }
}

/// State after a rollback: the last executed command moves to the rolled-back commands.
pub open spec fn state_after_rollback<T>(s: StackState<T>) -> StackState<T> {
    if s.executed.len() == 0 {
        s
    } else {
        StackState {
            executed: s.executed.drop_last(),
            rolled_back: s.rolled_back.push(s.executed.last()),
        }
    }
}

/// State after a re-execution: the last rolled-back command moves back to the executed commands.
pub open spec fn state_after_reexecute<T>(s: StackState<T>) -> StackState<T> {
    if s.rolled_back.len() == 0 {
        s
    } else {
        StackState {
            executed: s.executed.push(s.rolled_back.last()),
            rolled_back: s.rolled_back.drop_last(),
        }
    }
}

/// The next rollback in state `s` reverts by re-running the last command of the
/// same type, so it compares command types.
pub open spec fn reverts_by_last_execute<T>(s: StackState<T>) -> bool {
    s.executed.len() > 0 && s.executed.last().rollback_is_last_execute
}

/// The callback a rollback runs in state `s`.
pub open spec fn rollback_result<T>(s: StackState<T>) -> Option<u64> {
    if s.executed.len() == 0 {
        None
    } else {
        rollback_callback(s.executed.last(), s.executed.drop_last())
    }
}

/// The callback a re-execution runs in state `s`.
pub open spec fn reexecute_result<T>(s: StackState<T>) -> Option<u64> {
    if s.rolled_back.len() == 0 {
        None
    } else {
        Some(s.rolled_back.last().execute)
    }
}

/// Stack of executed commands together with the stack of rolled-back commands.
pub struct CommandStack<T> {
    execute_stack: Vec<Command<T>>,
    rollback_stack: Vec<Command<T>>,
}

impl<T> View for CommandStack<T> {
    type V = StackState<T>;

    closed spec fn view(&self) -> StackState<T> {
        StackState { executed: self.execute_stack@, rolled_back: self.rollback_stack@ }
    }
}

impl<T: PartialEq> CommandStack<T> {
    /// Creates a stack with no executed and no rolled-back commands.
    pub fn new() -> (r: Self)
        ensures
            r@.executed == Seq::<Command<T>>::empty(),
            r@.rolled_back == Seq::<Command<T>>::empty(),
    {
        CommandStack { execute_stack: Vec::new(), rollback_stack: Vec::new() }
    }

    /// Records `command` as executed and drops the redo history.
    /// Returns the handle of the callback that performs the command.
    pub fn execute(&mut self, command: Command<T>) -> (run: u64)
        ensures
            run == command.execute,
            final(self)@ == state_after_execute(old(self)@, command),
    {
        let run = command.execute;
        self.execute_stack.push(command);
        self.clear_rollback_stack();
        run
    }

    /// Moves the most recent executed command to the rolled-back commands.
    /// Returns the handle of the callback that reverts it, or `None` when there is
    /// nothing to run (no executed command, or no way to revert it). Reverting by the
    /// last command of the same type compares command types, which needs `==` on `T`
    /// to be an equality.
    pub fn rollback(&mut self) -> (run: Option<u64>)
        requires
            reverts_by_last_execute(old(self)@) ==> vstd::laws_eq::obeys_concrete_eq::<T>(),
        ensures
            run == rollback_result(old(self)@),
            final(self)@ == state_after_rollback(old(self)@),
    {
        match self.execute_stack.pop() {
            None => None,
            Some(command) => {
                let run = if command.rollback_is_last_execute {
                    match self.get_executes_guard(&command.command_type) {
                        Some(i) => Some(self.execute_stack[i].execute),
                        None => None,
                    }
                } else {
                    command.rollback
                };
                self.rollback_stack.push(command);
                run
            },
        }
    }

    /// Moves the most recent rolled-back command back to the executed commands.
    /// Returns the handle of the callback that performs it again.
    pub fn reexecute(&mut self) -> (run: Option<u64>)
        ensures
            run == reexecute_result(old(self)@),
            final(self)@ == state_after_reexecute(old(self)@),
    {
        match self.rollback_stack.pop() {
            None => None,
            Some(command) => {
                let run = command.execute;
                self.execute_stack.push(command);
                Some(run)
            },
        }
    }

    fn clear_rollback_stack(&mut self)
        ensures
            final(self).execute_stack@ == old(self).execute_stack@,
            final(self).rollback_stack@ == Seq::<Command<T>>::empty(),
    {
        self.rollback_stack.clear();
    }

    /// Position of the most recent executed command of type `command_type`, if any.
    fn get_executes_guard(&self, command_type: &T) -> (r: Option<usize>)
        requires
            vstd::laws_eq::obeys_concrete_eq::<T>(),
        ensures
            match r {
                Some(i) => last_index_of_type(self.execute_stack@, *command_type) == Some(i as int)
                    && i < self.execute_stack@.len(),
                None => last_index_of_type(self.execute_stack@, *command_type) is None,
            },
    {
        proof {
            reveal(vstd::laws_eq::obeys_concrete_eq);
        }
        let mut i: usize = self.execute_stack.len();
        assert(self.execute_stack@.subrange(0, i as int) =~= self.execute_stack@);
        while i > 0
            invariant
                i <= self.execute_stack@.len(),
                vstd::laws_eq::obeys_concrete_eq::<T>(),
                last_index_of_type(self.execute_stack@, *command_type)
                    == last_index_of_type(self.execute_stack@.subrange(0, i as int), *command_type),
            decreases i,
        {
            proof {
                reveal(vstd::laws_eq::obeys_concrete_eq);
            }
            let ghost prefix = self.execute_stack@.subrange(0, i as int);
            assert(prefix.drop_last() =~= self.execute_stack@.subrange(0, i - 1));
            assert(prefix.last() == self.execute_stack@[i - 1]);
            let same = self.execute_stack[i - 1].command_type == *command_type;
            if same {
                assert(self.execute_stack@[i - 1].command_type == *command_type);
                return Some(i - 1);
            }
            i = i - 1;
        }
        None
    }
}

/// What a [`CommandBuilder`] has collected so far.
pub struct BuilderState<T> {
    pub execute: Option<u64>,
    pub rollback: Option<u64>,
    pub command_type: Option<T>,
    pub rollback_is_last_execute: bool,
}

/// Step-by-step construction of a [`Command`].
pub struct CommandBuilder<T> {
    execute: Option<u64>,
    rollback: Option<u64>,
    command_type: Option<T>,
    rollback_is_last_execute: bool,
}

impl<T> View for CommandBuilder<T> {
    type V = BuilderState<T>;

    closed spec fn view(&self) -> BuilderState<T> {
        BuilderState {
            execute: self.execute,
            rollback: self.rollback,
            command_type: self.command_type,
            rollback_is_last_execute: self.rollback_is_last_execute,
        }
    }
}

impl<T> CommandBuilder<T> {
    /// A builder with nothing set.
    pub fn new() -> (r: Self)
        ensures
            r@ == (BuilderState::<T> {
                execute: None,
                rollback: None,
                command_type: None,
                rollback_is_last_execute: false,
            }),
    {
        CommandBuilder { execute: None, rollback: None, command_type: None, rollback_is_last_execute: false }
    }

    /// Sets the callback that performs the command.
    pub fn execute(self, f: u64) -> (r: Self)
        ensures
            r@ == (BuilderState { execute: Some(f), ..self@ }),
    {
        CommandBuilder { execute: Some(f), ..self }
    }

    /// Sets the callback that reverts the command.
    pub fn rollback(self, f: u64) -> (r: Self)
        ensures
            r@ == (BuilderState { rollback: Some(f), ..self@ }),
    {
        CommandBuilder { rollback: Some(f), ..self }
    }

    /// Sets the command's type.
    pub fn command_type(self, command_type: T) -> (r: Self)
        ensures
            r@ == (BuilderState { command_type: Some(command_type), ..self@ }),
    {
        CommandBuilder { command_type: Some(command_type), ..self }
    }

    /// Marks the command as reverted by re-running the last command of the same type.
    pub fn rollback_is_last_execute(self) -> (r: Self)
        ensures
            r@ == (BuilderState { rollback_is_last_execute: true, ..self@ }),
    {
        CommandBuilder { rollback_is_last_execute: true, ..self }
    }

    /// Builds the command; the execute callback and the command type must have been set.
    pub fn build(self) -> (c: Command<T>)
        requires
            self@.execute is Some,
            self@.command_type is Some,
        ensures
            c.execute == self@.execute->0,
            c.rollback == self@.rollback,
            c.command_type == self@.command_type->0,
            c.rollback_is_last_execute == self@.rollback_is_last_execute,
    {
        Command {
            execute: self.execute.unwrap(),
            rollback: self.rollback,
            command_type: self.command_type.unwrap(),
            rollback_is_last_execute: self.rollback_is_last_execute,
        }
    }
}

/// Re-executing right after a rollback restores the stack and runs the command that
/// was rolled back again.
pub proof fn lemma_reexecute_undoes_rollback<T>(s: StackState<T>)
    requires
        s.executed.len() > 0,
    ensures
        state_after_reexecute(state_after_rollback(s)) == s,
        reexecute_result(state_after_rollback(s)) == Some(s.executed.last().execute),
{
    let r = state_after_rollback(s);
    assert(r.rolled_back.last() == s.executed.last());
    assert(r.executed.push(r.rolled_back.last()) =~= s.executed);
    assert(r.rolled_back.drop_last() =~= s.rolled_back);
}

/// Rolling back right after a re-execution restores the stack.
pub proof fn lemma_rollback_undoes_reexecute<T>(s: StackState<T>)
    requires
        s.rolled_back.len() > 0,
    ensures
        state_after_rollback(state_after_reexecute(s)) == s,
{
    let r = state_after_reexecute(s);
    assert(r.executed.last() == s.rolled_back.last());
    assert(r.executed.drop_last() =~= s.executed);
    assert(r.rolled_back.push(r.executed.last()) =~= s.rolled_back);
}

/// Executing a new command leaves nothing to re-execute.
pub proof fn lemma_execute_clears_redo<T>(s: StackState<T>, c: Command<T>)
    ensures
        state_after_execute(s, c).rolled_back.len() == 0,
        reexecute_result(state_after_execute(s, c)) is None,
        state_after_reexecute(state_after_execute(s, c)) == state_after_execute(s, c),
{
}

/// Rolling back a command right after executing it runs its own rollback callback
/// (or the execute callback of the latest earlier command of its type) and returns
/// the executed commands to what they were before.
pub proof fn lemma_rollback_after_execute<T>(s: StackState<T>, c: Command<T>)
    ensures
        state_after_rollback(state_after_execute(s, c)).executed == s.executed,
        state_after_rollback(state_after_execute(s, c)).rolled_back == seq![c],
        rollback_result(state_after_execute(s, c)) == rollback_callback(c, s.executed),
{
    let e = state_after_execute(s, c);
    assert(e.executed.drop_last() =~= s.executed);
    assert(e.executed.last() == c);
    assert(e.rolled_back.push(c) =~= seq![c]);
}

/// Executing a command, rolling it back and re-executing it ends in the state right
/// after the execution; the callbacks run are the command's execute callback, its
/// revert callback, and its execute callback again.
pub proof fn lemma_execute_rollback_reexecute<T>(s: StackState<T>, c: Command<T>)
    ensures
        state_after_reexecute(state_after_rollback(state_after_execute(s, c)))
            == state_after_execute(s, c),
        rollback_result(state_after_execute(s, c)) == rollback_callback(c, s.executed),
        !c.rollback_is_last_execute ==> rollback_result(state_after_execute(s, c)) == c.rollback,
        reexecute_result(state_after_rollback(state_after_execute(s, c))) == Some(c.execute),
{
    let e = state_after_execute(s, c);
    lemma_rollback_after_execute(s, c);
    lemma_reexecute_undoes_rollback(e);
}

/// The lookup of the last command of a type finds the most recent one: when it gives
/// `Some(i)`, the command at `i` has type `t` and no later command has; when it gives
/// `None`, no command has type `t`.
pub proof fn lemma_last_index_is_most_recent<T>(s: Seq<Command<T>>, t: T)
    ensures
        match last_index_of_type(s, t) {
            Some(i) => 0 <= i < s.len() && s[i].command_type == t && forall|j: int|
                i < j < s.len() ==> (#[trigger] s[j]).command_type != t,
            None => forall|j: int| 0 <= j < s.len() ==> (#[trigger] s[j]).command_type != t,
        },
    decreases s.len(),
{
    if s.len() > 0 {
        let p = s.drop_last();
        lemma_last_index_is_most_recent(p, t);
        assert forall|j: int| 0 <= j < p.len() implies #[trigger] p[j] == s[j] by {}
        if s.last().command_type != t {
            match last_index_of_type(p, t) {
                Some(i) => {
                    assert forall|j: int| i < j < s.len() implies (#[trigger] s[j]).command_type
                        != t by {
                        if j < p.len() {
                            assert(p[j] == s[j]);
                        }
                    }
                },
                None => {
                    assert forall|j: int| 0 <= j < s.len() implies (#[trigger] s[j]).command_type
                        != t by {
                        if j < p.len() {
                            assert(p[j] == s[j]);
                        }
                    }
                },
            }
        }
    }
}

/// Rolling back a command that reverts by re-running the last command of its type
/// runs the execute callback of the most recent earlier command of that type (no
/// command between them has the type), or nothing when no earlier command has it.
pub proof fn lemma_rollback_reruns_most_recent_of_type<T>(s: StackState<T>)
    requires
        s.executed.len() > 0,
        s.executed.last().rollback_is_last_execute,
    ensures
        ({
            let n = s.executed.len() - 1;
            let t = s.executed.last().command_type;
            ||| exists|i: int|
                0 <= i < n && (#[trigger] s.executed[i]).command_type == t && (forall|j: int|
                    i < j < n ==> (#[trigger] s.executed[j]).command_type != t) && rollback_result(s)
                    == Some(s.executed[i].execute)
            ||| (forall|j: int| 0 <= j < n ==> (#[trigger] s.executed[j]).command_type != t)
                && rollback_result(s) is None
        }),
{
    let n = s.executed.len() - 1;
    let t = s.executed.last().command_type;
    let e = s.executed.drop_last();
    lemma_last_index_is_most_recent(e, t);
    assert forall|j: int| 0 <= j < n implies #[trigger] e[j] == s.executed[j] by {}
    match last_index_of_type(e, t) {
        Some(i) => {
            assert(e[i] == s.executed[i]);
            assert forall|j: int| i < j < n implies (#[trigger] s.executed[j]).command_type != t by {
                assert(e[j] == s.executed[j]);
            }
        },
        None => {
            assert forall|j: int| 0 <= j < n implies (#[trigger] s.executed[j]).command_type != t by {
                assert(e[j] == s.executed[j]);
            }
        },
    }
}

/// Undo and redo never lose a command: the executed commands followed by the
/// rolled-back commands in redo order stay the same.
pub open spec fn timeline<T>(s: StackState<T>) -> Seq<Command<T>> {
    s.executed + s.rolled_back.reverse()
}

/// Rollback and re-execution keep the timeline.
pub proof fn lemma_undo_redo_keep_timeline<T>(s: StackState<T>)
    ensures
        timeline(state_after_rollback(s)) == timeline(s),
        timeline(state_after_reexecute(s)) == timeline(s),
{
    if s.executed.len() > 0 {
        let r = state_after_rollback(s);
        assert(r.rolled_back.reverse() =~= seq![s.executed.last()] + s.rolled_back.reverse());
        assert(r.executed + r.rolled_back.reverse() =~= s.executed + s.rolled_back.reverse());
    }
    if s.rolled_back.len() > 0 {
        let r = state_after_reexecute(s);
        assert(s.rolled_back.reverse() =~= seq![s.rolled_back.last()] + r.rolled_back.reverse());
        assert(r.executed + r.rolled_back.reverse() =~= s.executed + s.rolled_back.reverse());
    }
}

} // verus!
