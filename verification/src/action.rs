use vstd::prelude::*;

verus! {

/// How far an action has got.
#[derive(Copy, Clone, Debug, PartialEq, Eq, Structural)]
pub enum ActionState {
    /// Executed, and not reverted since.
    Completed,
    /// Executing or reverting began and has not finished.
    Progress,
    /// Not executed, or reverted since.
    Uncompleted,
    /// Nothing to do: neither executed nor reverted.
    Skipped,
}

/// The name an action is serialised under.
pub struct ActionTag(pub &'static str);

/// What an action is about to do: one line, and lines that explain it.
pub struct ActionDescription {
    pub description: String,
    pub explanation: Vec<String>,
}

/// The views of a sequence of strings.
pub open spec fn string_views(s: Seq<String>) -> Seq<Seq<char>> {
    s.map_values(|x: String| x@)
}

impl ActionDescription {
    pub fn new(description: String, explanation: Vec<String>) -> (r: Self)
        ensures
            r.description == description,
            r.explanation == explanation,
    {
        ActionDescription { description, explanation }
    }

    /// The description line and the explanation lines, as character sequences.
    pub open spec fn text(self) -> (Seq<char>, Seq<Seq<char>>) {
        (self.description@, string_views(self.explanation@))
    }
}

/// The views of a list of descriptions.
pub open spec fn description_texts(s: Seq<ActionDescription>) -> Seq<(Seq<char>, Seq<Seq<char>>)> {
    s.map_values(|d: ActionDescription| d.text())
}

/// Whether executing an action in state `s` does its work.
pub open spec fn runs_execute(s: ActionState) -> bool {
    s != ActionState::Completed && s != ActionState::Skipped
}

/// The state of an action in state `s` after an execution that succeeded
/// or failed as `ok` says (ignored where nothing runs).
pub open spec fn state_after_execute(s: ActionState, ok: bool) -> ActionState {
    if !runs_execute(s) {
        s
    } else if ok {
        ActionState::Completed
    } else {
        ActionState::Progress
    }
}

/// Whether reverting an action in state `s` undoes its work.
pub open spec fn runs_revert(s: ActionState) -> bool {
    s != ActionState::Uncompleted && s != ActionState::Skipped
}

/// The state of an action in state `s` after a revert that succeeded or
/// failed as `ok` says (ignored where nothing runs).
pub open spec fn state_after_revert(s: ActionState, ok: bool) -> ActionState {
    if !runs_revert(s) {
        s
    } else if ok {
        ActionState::Uncompleted
    } else {
        ActionState::Progress
    }
}

/// An action together with how far it has got.
pub struct StatefulAction<A> {
    pub action: A,
    pub state: ActionState,
}

impl<A> StatefulAction<A> {
    /// A planned action that has not run yet.
    pub fn new(action: A) -> (r: Self)
        ensures
            r.action == action,
            r.state == ActionState::Uncompleted,
    {
        StatefulAction { action, state: ActionState::Uncompleted }
    }

    /// The decision that starts an execution: whether the action's work is
    /// to be run. Where it is, the state becomes `Progress`.
    pub fn begin_execute(&mut self) -> (run: bool)
        ensures
            run == runs_execute(old(self).state),
            final(self).action == old(self).action,
            final(self).state == (if run { ActionState::Progress } else { old(self).state }),
    {
        match self.state {
            ActionState::Completed => false,
            ActionState::Skipped => false,
            _ => {
                self.state = ActionState::Progress;
                true
            },
        }
    }

    /// Records how the work that `begin_execute` called for went: on
    /// success the action is `Completed`; on failure it stays in `Progress`.
    pub fn finish_execute(&mut self, succeeded: bool)
        requires
            old(self).state == ActionState::Progress,
        ensures
            final(self).action == old(self).action,
            final(self).state == state_after_execute(ActionState::Progress, succeeded),
    {
        if succeeded {
            self.state = ActionState::Completed;
        }
    }

    /// The decision that starts a revert: whether the action's work is to be
    /// undone. Where it is, the state becomes `Progress`.
    pub fn begin_revert(&mut self) -> (run: bool)
        ensures
            run == runs_revert(old(self).state),
            final(self).action == old(self).action,
            final(self).state == (if run { ActionState::Progress } else { old(self).state }),
    {
        match self.state {
            ActionState::Uncompleted => false,
            ActionState::Skipped => false,
            _ => {
                self.state = ActionState::Progress;
                true
            },
        }
    }

    /// Records how the undoing that `begin_revert` called for went: on
    /// success the action is `Uncompleted`; on failure it stays in `Progress`.
    pub fn finish_revert(&mut self, succeeded: bool)
        requires
            old(self).state == ActionState::Progress,
        ensures
            final(self).action == old(self).action,
            final(self).state == state_after_revert(ActionState::Progress, succeeded),
    {
        if succeeded {
            self.state = ActionState::Uncompleted;
        }
    }
}

/// Executing twice is executing once: after a successful execution, a
/// further execution runs nothing and leaves the state as it is.
pub proof fn lemma_execute_is_idempotent(s: ActionState, ok: bool)
    ensures
        !runs_execute(state_after_execute(s, true)),
        state_after_execute(state_after_execute(s, true), ok) == state_after_execute(s, true),
{
}

/// A successful revert undoes a successful execution: the action is back
/// where it started, `Uncompleted`, unless it was skipped.
pub proof fn lemma_revert_undoes_execute(s: ActionState)
    requires
        s != ActionState::Skipped,
    ensures
        state_after_revert(state_after_execute(s, true), true) == ActionState::Uncompleted,
{
}

/// Reverting twice is reverting once.
pub proof fn lemma_revert_is_idempotent(s: ActionState, ok: bool)
    ensures
        !runs_revert(state_after_revert(s, true)),
        state_after_revert(state_after_revert(s, true), ok) == state_after_revert(s, true),
{
}

/// A skipped action neither executes nor reverts, and stays skipped.
pub proof fn lemma_skipped_stays_skipped(ok: bool)
    ensures
        !runs_execute(ActionState::Skipped),
        !runs_revert(ActionState::Skipped),
        state_after_execute(ActionState::Skipped, ok) == ActionState::Skipped,
        state_after_revert(ActionState::Skipped, ok) == ActionState::Skipped,
{
}

/// Starting an execution (`begin_execute`, which moves to `Progress`) and
/// recording its outcome (`finish_execute`) together give the state that
/// `state_after_execute` names; likewise for reverting.
pub proof fn lemma_begin_then_finish(s: ActionState, ok: bool)
    ensures
        runs_execute(s) ==> state_after_execute(ActionState::Progress, ok) == state_after_execute(s, ok),
        runs_revert(s) ==> state_after_revert(ActionState::Progress, ok) == state_after_revert(s, ok),
{
}

/// Where an action's work runs, a successful execution leaves it
/// `Completed` and a successful revert leaves it `Uncompleted`.
pub proof fn lemma_success_is_recorded(s: ActionState)
    ensures
        runs_execute(s) ==> state_after_execute(s, true) == ActionState::Completed,
        runs_revert(s) ==> state_after_revert(s, true) == ActionState::Uncompleted,
        runs_execute(ActionState::Uncompleted),
        runs_revert(ActionState::Completed),
{
}

/// A failed execution is not recorded as done: the action is left in
/// `Progress`, not `Completed`, so executing again runs its work again.
pub proof fn lemma_failed_execute_is_retried(s: ActionState)
    requires
        runs_execute(s),
    ensures
        state_after_execute(s, false) == ActionState::Progress,
        state_after_execute(s, false) != ActionState::Completed,
        runs_execute(state_after_execute(s, false)),
{
}

/// A failed revert is not recorded as undone: the action is left in
/// `Progress`, not `Uncompleted`, so reverting again undoes its work again.
pub proof fn lemma_failed_revert_is_retried(s: ActionState)
    requires
        runs_revert(s),
    ensures
        state_after_revert(s, false) == ActionState::Progress,
        state_after_revert(s, false) != ActionState::Uncompleted,
        runs_revert(state_after_revert(s, false)),
{
}

} // verus!
