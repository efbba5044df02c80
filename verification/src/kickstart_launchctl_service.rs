use vstd::prelude::*;

use crate::action::{description_texts, string_views, ActionDescription, ActionState};

verus! {

#[verifier::external_type_specification]
#[verifier::external_body]
pub struct ExIoError(std::io::Error);

/// The tool that starts and stops launchd units.
pub const LAUNCHCTL: &'static str = "launchctl";

/// Why the unit is kickstarted, shown with both descriptions.
pub const KICKSTART_EXPLANATION: &'static str =
    "The `nix` command line tool communicates with a running Nix daemon managed by your init system";

/// An action that (re)starts a launchd unit.
pub struct KickstartLaunchctlService {
    pub unit: String,
    pub action_state: ActionState,
}

pub enum KickstartLaunchctlServiceError {
    /// `launchctl` could not be run, or failed.
    Command(std::io::Error),
}

/// Whether executing, in state `s`, runs `launchctl kickstart`.
pub open spec fn kickstart_executes(s: ActionState) -> bool {
    s != ActionState::Completed
}

/// Whether reverting, in state `s`, runs `launchctl stop`.
pub open spec fn kickstart_reverts(s: ActionState) -> bool {
    s != ActionState::Uncompleted
}

/// The state after a `launchctl` command that succeeded or failed as `ok`
/// says, from state `s`: `Completed` on success, else unchanged.
pub open spec fn kickstart_state_after(s: ActionState, ok: bool) -> ActionState {
    if ok {
        ActionState::Completed
    } else {
        s
    }
}

/// Executing twice is executing once: after a successful execution, a
/// further execution runs no command and has nothing to describe.
pub proof fn lemma_kickstart_execute_is_idempotent(s: ActionState)
    ensures
        !kickstart_executes(kickstart_state_after(s, true)),
{
}

/// A `launchctl` command that failed changes nothing: the state is kept,
/// so a failed kickstart is tried again by the next execution and a failed
/// stop by the next revert.
pub proof fn lemma_kickstart_failure_keeps_state(s: ActionState)
    ensures
        kickstart_state_after(s, false) == s,
        kickstart_executes(s) ==> kickstart_executes(kickstart_state_after(s, false)),
        kickstart_reverts(s) ==> kickstart_reverts(kickstart_state_after(s, false)),
        kickstart_state_after(s, true) == ActionState::Completed,
{
}

/// A planned unit is kickstarted by execution, and not stopped by a revert
/// before that; a kickstarted unit is stopped by a revert.
pub proof fn lemma_kickstart_runs_from_planned_state()
    ensures
        kickstart_executes(ActionState::Uncompleted),
        !kickstart_reverts(ActionState::Uncompleted),
        kickstart_reverts(ActionState::Completed),
        !kickstart_executes(ActionState::Completed),
{
}

/// The installer's actions that this library holds.
pub enum Action {
    DarwinKickStartLaunchctlService(KickstartLaunchctlService),
}

impl KickstartLaunchctlService {
    /// Plans kickstarting `unit`; it has not run yet.
    pub fn plan(unit: String) -> (r: Result<Self, KickstartLaunchctlServiceError>)
        ensures
            r matches Ok(s) && s.unit == unit && s.action_state == ActionState::Uncompleted,
    {
        Ok(KickstartLaunchctlService { unit, action_state: ActionState::Uncompleted })
    }

    pub open spec fn execute_synopsis(self) -> Seq<char> {
        "Kickstart the launchctl unit `"@ + self.unit@ + "`"@
    }

    /// What executing will do: nothing once the unit has been kickstarted.
    pub fn describe_execute(&self) -> (r: Vec<ActionDescription>)
        ensures
            !kickstart_executes(self.action_state) ==> r@.len() == 0,
            kickstart_executes(self.action_state) ==> description_texts(r@) == seq![
                (self.execute_synopsis(), seq![KICKSTART_EXPLANATION@]),
            ],
    {
        if self.action_state == ActionState::Completed {
            Vec::new()
        } else {
            let mut s = String::from_str("Kickstart the launchctl unit `");
            s.append(self.unit.as_str());
            s.append("`");
            let r = vec![ActionDescription::new(s, vec![String::from_str(KICKSTART_EXPLANATION)])];
            assert(description_texts(r@) =~= seq![
                (self.execute_synopsis(), seq![KICKSTART_EXPLANATION@]),
            ]) by {
                assert(r@[0].text().1 =~= seq![KICKSTART_EXPLANATION@]);
            }
            r
        }
    }

    /// The arguments of `launchctl` that execution runs: none once the unit
    /// has been kickstarted, for then executing does nothing.
    pub fn execute_arguments(&self) -> (r: Option<Vec<String>>)
        ensures
            r is None <==> !kickstart_executes(self.action_state),
            r matches Some(args) ==> string_views(args@) == seq!["kickstart"@, "-k"@, self.unit@],
    {
        if self.action_state == ActionState::Completed {
            None
        } else {
            let r = vec![String::from_str("kickstart"), String::from_str("-k"), self.unit.clone()];
            assert(string_views(r@) =~= seq!["kickstart"@, "-k"@, self.unit@]);
            Some(r)
        }
    }

    /// Records how the command of `execute_arguments` went, and hands its
    /// result on: on success the unit is `Completed`.
    pub fn finish_execute(
        &mut self,
        outcome: Result<(), KickstartLaunchctlServiceError>,
    ) -> (r: Result<(), KickstartLaunchctlServiceError>)
        ensures
            r == outcome,
            final(self).unit == old(self).unit,
            final(self).action_state == kickstart_state_after(old(self).action_state, outcome is Ok),
    {
        if outcome.is_ok() {
            self.action_state = ActionState::Completed;
        }
        outcome
    }

    /// What reverting will do: nothing while the unit is not kickstarted.
    pub fn describe_revert(&self) -> (r: Vec<ActionDescription>)
        ensures
            !kickstart_reverts(self.action_state) ==> r@.len() == 0,
            kickstart_reverts(self.action_state) ==> description_texts(r@) == seq![
                ("Kick"@, seq![KICKSTART_EXPLANATION@]),
            ],
    {
        if self.action_state == ActionState::Uncompleted {
            Vec::new()
        } else {
            let r = vec![
                ActionDescription::new(
                    String::from_str("Kick"),
                    vec![String::from_str(KICKSTART_EXPLANATION)],
                ),
            ];
            assert(description_texts(r@) =~= seq![("Kick"@, seq![KICKSTART_EXPLANATION@])]) by {
                assert(r@[0].text().1 =~= seq![KICKSTART_EXPLANATION@]);
            }
            r
        }
    }

    /// The arguments of `launchctl` that reverting runs: none while the unit
    /// is not kickstarted.
    pub fn revert_arguments(&self) -> (r: Option<Vec<String>>)
        ensures
            r is None <==> !kickstart_reverts(self.action_state),
            r matches Some(args) ==> string_views(args@) == seq!["stop"@, self.unit@],
    {
        if self.action_state == ActionState::Uncompleted {
            None
        } else {
            let r = vec![String::from_str("stop"), self.unit.clone()];
            assert(string_views(r@) =~= seq!["stop"@, self.unit@]);
            Some(r)
        }
    }

    /// Records how the command of `revert_arguments` went, and hands its
    /// result on. On success the state is set to `Completed`, as the
    /// installer always did after stopping the unit.
    pub fn finish_revert(
        &mut self,
        outcome: Result<(), KickstartLaunchctlServiceError>,
    ) -> (r: Result<(), KickstartLaunchctlServiceError>)
        ensures
            r == outcome,
            final(self).unit == old(self).unit,
            final(self).action_state == kickstart_state_after(old(self).action_state, outcome is Ok),
    {
        if outcome.is_ok() {
            self.action_state = ActionState::Completed;
        }
        outcome
    }
}

impl KickstartLaunchctlServiceError {
    /// The error's message.
    pub fn message(&self) -> (r: String)
        ensures
            r@ == "Failed to execute command"@,
    {
        String::from_str("Failed to execute command")
    }
}

impl From<KickstartLaunchctlService> for Action {
    fn from(v: KickstartLaunchctlService) -> (r: Action) {
        Action::DarwinKickStartLaunchctlService(v)
    }
}

impl vstd::std_specs::convert::FromSpecImpl<KickstartLaunchctlService> for Action {
    open spec fn obeys_from_spec() -> bool {
        true
    }

    open spec fn from_spec(v: KickstartLaunchctlService) -> Action {
        Action::DarwinKickStartLaunchctlService(v)
    }
}

} // verus!
