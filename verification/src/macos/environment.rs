//! What must be there before the desktop can be used.
use crate::macos::types::MacosNativeConnectError;
use crate::select;
use vstd::prelude::*;

verus! {

/// How many functions of the system are needed.
pub const REQUIRED_SYMBOLS: usize = 11;

/// The name of a function of the system that is needed.
pub open spec fn required_symbol_name(at: int) -> &'static str {
    if at == 0 {
        "SLSMainConnectionID"
    } else if at == 1 {
        "SLSCopyManagedDisplaySpaces"
    } else if at == 2 {
        "SLSManagedDisplayGetCurrentSpace"
    } else if at == 3 {
        "SLSManagedDisplaySetCurrentSpace"
    } else if at == 4 {
        "SLSCopyManagedDisplayForSpace"
    } else if at == 5 {
        "SLSCopyWindowsWithOptionsAndTags"
    } else if at == 6 {
        "SLSMoveWindowsToManagedSpace"
    } else if at == 7 {
        "AXIsProcessTrusted"
    } else if at == 8 {
        "_AXUIElementGetWindow"
    } else if at == 9 {
        "_SLPSSetFrontProcessWithOptions"
    } else {
        "GetProcessForPID"
    }
}

/// Names a function of the system that is needed.
pub fn required_symbol(at: usize) -> (result: &'static str)
    requires
        at < REQUIRED_SYMBOLS,
    ensures
        result == required_symbol_name(at as int),
{
    match at {
        0 => "SLSMainConnectionID",
        1 => "SLSCopyManagedDisplaySpaces",
        2 => "SLSManagedDisplayGetCurrentSpace",
        3 => "SLSManagedDisplaySetCurrentSpace",
        4 => "SLSCopyManagedDisplayForSpace",
        5 => "SLSCopyWindowsWithOptionsAndTags",
        6 => "SLSMoveWindowsToManagedSpace",
        7 => "AXIsProcessTrusted",
        8 => "_AXUIElementGetWindow",
        9 => "_SLPSSetFrontProcessWithOptions",
        _ => "GetProcessForPID",
    }
}

/// What is looked at next.
#[derive(Clone, Copy, Debug, PartialEq, Eq, Structural)]
pub enum CheckPhase {
    /// The function with the given number.
    Symbol(usize),
    /// The permission to use accessibility.
    Trust,
    /// The connection to the window server.
    Topology,
    /// Nothing is left to look at.
    Finished,
}

/// What the caller is to find out.
#[derive(Clone, Copy, Debug, PartialEq, Eq)]
pub enum CheckAction {
    HasSymbol(&'static str),
    AxIsTrusted,
    MinimalTopologyReady,
    Finish(Result<(), MacosNativeConnectError>),
}

/// The environment being looked at, one thing after the other.
#[derive(Clone, Copy, Debug, PartialEq, Eq, Structural)]
pub struct EnvironmentCheck {
    pub phase: CheckPhase,
}

impl CheckPhase {
    /// Only functions that are needed are looked at.
    pub open spec fn is_valid(self) -> bool {
        self matches CheckPhase::Symbol(at) ==> at < REQUIRED_SYMBOLS
    }

    /// What is to be found out in this phase.
    pub open spec fn question(self) -> CheckAction {
        match self {
            CheckPhase::Symbol(at) => CheckAction::HasSymbol(required_symbol_name(at as int)),
            CheckPhase::Trust => CheckAction::AxIsTrusted,
            CheckPhase::Topology => CheckAction::MinimalTopologyReady,
            CheckPhase::Finished => CheckAction::Finish(Ok(())),
        }
    }

    /// What is wrong when the answer is no.
    pub open spec fn failure(self) -> MacosNativeConnectError {
        match self {
            CheckPhase::Symbol(at) => MacosNativeConnectError::MissingRequiredSymbol(
                required_symbol_name(at as int),
            ),
            CheckPhase::Trust => MacosNativeConnectError::MissingAccessibilityPermission,
            _ => MacosNativeConnectError::MissingTopologyPrecondition("main SkyLight connection"),
        }
    }

    /// What is looked at after this.
    pub open spec fn next(self) -> CheckPhase {
        match self {
            CheckPhase::Symbol(at) => if at + 1 < REQUIRED_SYMBOLS {
                CheckPhase::Symbol((at + 1) as usize)
            } else {
                CheckPhase::Trust
            },
            CheckPhase::Trust => CheckPhase::Topology,
            _ => CheckPhase::Finished,
        }
    }

    /// How many things are left to look at.
    pub open spec fn remaining(self) -> nat {
        match self {
            CheckPhase::Symbol(at) => if at < REQUIRED_SYMBOLS {
                (REQUIRED_SYMBOLS - at + 2) as nat
            } else {
                3
            },
            CheckPhase::Trust => 2,
            CheckPhase::Topology => 1,
            CheckPhase::Finished => 0,
        }
    }

    /// What follows when the answer comes in: the first no is the end, and so is the last yes.
    pub open spec fn step(self, answer: bool) -> (CheckPhase, CheckAction) {
        if answer {
            (self.next(), self.next().question())
        } else {
            (CheckPhase::Finished, CheckAction::Finish(Err(self.failure())))
        }
    }

    /// The verdict on a series of answers to the questions from this phase on.
    pub open spec fn verdict(self, answers: Seq<bool>) -> Result<(), MacosNativeConnectError>
        decreases self.remaining(),
    {
        if self is Finished {
            Ok(())
        } else if !answers[0] {
            Err(self.failure())
        } else {
            self.next().verdict(answers.skip(1))
        }
    }

    /// The phase after so many questions.
    pub open spec fn after(self, count: nat) -> CheckPhase
        decreases count,
    {
        if count == 0 {
            self
        } else {
            self.next().after((count - 1) as nat)
        }
    }
}

/// Starts to look at everything that is needed to connect.
pub fn validate_environment() -> (result: (EnvironmentCheck, CheckAction))
    ensures
        result.0.phase == CheckPhase::Symbol(0),
        result.1 == result.0.phase.question(),
{
    (
        EnvironmentCheck { phase: CheckPhase::Symbol(0) },
        CheckAction::HasSymbol("SLSMainConnectionID"),
    )
}

/// Starts to look at what is needed to tell which application has the focus.
pub fn validate_fast_focus() -> (result: (EnvironmentCheck, CheckAction))
    ensures
        result.0.phase == CheckPhase::Trust,
        result.1 == result.0.phase.question(),
{
    (EnvironmentCheck { phase: CheckPhase::Trust }, CheckAction::AxIsTrusted)
}

impl EnvironmentCheck {
    /// Takes in an answer and says what to find out next.
    pub fn advance(&mut self, answer: bool) -> (action: CheckAction)
        requires
            old(self).phase.is_valid(),
        ensures
            final(self).phase.is_valid(),
            (final(self).phase, action) == old(self).phase.step(answer),
    {
        let phase: CheckPhase = self.phase;
        if !answer {
            self.phase = CheckPhase::Finished;
            return CheckAction::Finish(
                Err(
                    match phase {
                        CheckPhase::Symbol(at) => MacosNativeConnectError::MissingRequiredSymbol(
                            required_symbol(at),
                        ),
                        CheckPhase::Trust =>
                            MacosNativeConnectError::MissingAccessibilityPermission,
                        _ => MacosNativeConnectError::MissingTopologyPrecondition(
                            "main SkyLight connection",
                        ),
                    },
                ),
            );
        }
        match phase {
            CheckPhase::Symbol(at) => {
                if at + 1 < REQUIRED_SYMBOLS {
                    self.phase = CheckPhase::Symbol(at + 1);
                    CheckAction::HasSymbol(required_symbol(at + 1))
                } else {
                    self.phase = CheckPhase::Trust;
                    CheckAction::AxIsTrusted
                }
            },
            CheckPhase::Trust => {
                self.phase = CheckPhase::Topology;
                CheckAction::MinimalTopologyReady
            },
            _ => {
                self.phase = CheckPhase::Finished;
                CheckAction::Finish(Ok(()))
            },
        }
    }
}

/// The environment is good exactly if every answer is yes, and otherwise the first no is what is
/// reported, whatever comes after it.
pub proof fn first_missing_thing_is_reported(phase: CheckPhase, answers: Seq<bool>)
    requires
        phase.is_valid(),
        answers.len() == phase.remaining(),
    ensures
        match select::first_set(answers.map_values(|answer: bool| !answer)) {
            Some(at) => phase.verdict(answers) == Err::<(), MacosNativeConnectError>(
                phase.after(at as nat).failure(),
            ),
            None => phase.verdict(answers) == Ok::<(), MacosNativeConnectError>(()),
        },
    decreases phase.remaining(),
{
    let denied = answers.map_values(|answer: bool| !answer);
    select::first_set_finds_the_first(denied);
    if phase !is Finished {
        let rest = answers.skip(1);
        let denied_rest = rest.map_values(|answer: bool| !answer);
        if !answers[0] {
            assert(denied[0]);
            select::lemma_first_set(denied, 0);
        } else {
            first_missing_thing_is_reported(phase.next(), rest);
            assert(!denied[0]);
            select::first_set_finds_the_first(denied_rest);
            match select::first_set(denied_rest) {
                Some(at) => {
                    assert(denied_rest[at]);
                    assert forall|i: int| 0 <= i < at + 1 implies !#[trigger] denied[i] by {
                        if i > 0 {
                            assert(!denied_rest[i - 1]);
                        }
                    }
                    select::lemma_first_set(denied, at + 1);
                },
                None => {
                    assert forall|i: int| 0 <= i < denied.len() implies !#[trigger] denied[i] by {
                        if i > 0 {
                            assert(!denied_rest[i - 1]);
                        }
                    }
                    select::lemma_none_set(denied);
                },
            }
        }
    }
}

/// What is needed is asked for in a fixed order: the functions by name, the permission, and the
/// connection.
pub proof fn requirements_are_asked_for_in_order(
    at: usize,
    name: &'static str,
    full: (EnvironmentCheck, CheckAction),
    fast: (EnvironmentCheck, CheckAction),
)
    requires
        at < REQUIRED_SYMBOLS,
        call_ensures(required_symbol, (at,), name),
        call_ensures(validate_environment, (), full),
        call_ensures(validate_fast_focus, (), fast),
    ensures
        REQUIRED_SYMBOLS == 11,
        at == 0 ==> name == "SLSMainConnectionID",
        at == 1 ==> name == "SLSCopyManagedDisplaySpaces",
        at == 2 ==> name == "SLSManagedDisplayGetCurrentSpace",
        at == 3 ==> name == "SLSManagedDisplaySetCurrentSpace",
        at == 4 ==> name == "SLSCopyManagedDisplayForSpace",
        at == 5 ==> name == "SLSCopyWindowsWithOptionsAndTags",
        at == 6 ==> name == "SLSMoveWindowsToManagedSpace",
        at == 7 ==> name == "AXIsProcessTrusted",
        at == 8 ==> name == "_AXUIElementGetWindow",
        at == 9 ==> name == "_SLPSSetFrontProcessWithOptions",
        at == 10 ==> name == "GetProcessForPID",
        full.0.phase == CheckPhase::Symbol(0),
        full.1 == CheckAction::HasSymbol("SLSMainConnectionID"),
        fast.0.phase is Trust,
        fast.1 is AxIsTrusted,
{
}

/// A yes leads on to the next thing that is needed and, after the last, to success; a no ends the
/// check with the error that names what is missing.
pub proof fn answers_lead_on_or_end_the_check(
    check: &mut EnvironmentCheck,
    answer: bool,
    action: CheckAction,
    name: &'static str,
    next_name: &'static str,
    at: usize,
)
    requires
        old(check).phase.is_valid(),
        call_ensures(EnvironmentCheck::advance, (check, answer), action),
        at < 11,
        call_ensures(required_symbol, (at,), name),
        at < 10 ==> call_ensures(required_symbol, ((at + 1) as usize,), next_name),
    ensures
        old(check).phase == CheckPhase::Symbol(at) ==> {
            &&& !answer ==> action == CheckAction::Finish(
                Err(MacosNativeConnectError::MissingRequiredSymbol(name)),
            )
            &&& answer && at < 10 ==> action == CheckAction::HasSymbol(next_name)
                && final(check).phase == CheckPhase::Symbol((at + 1) as usize)
            &&& answer && at == 10 ==> action is AxIsTrusted && final(check).phase is Trust
        },
        old(check).phase is Trust ==> {
            &&& !answer ==> action == CheckAction::Finish(
                Err(MacosNativeConnectError::MissingAccessibilityPermission),
            )
            &&& answer ==> action is MinimalTopologyReady && final(check).phase is Topology
        },
        old(check).phase is Topology ==> {
            &&& !answer ==> action == CheckAction::Finish(
                Err(MacosNativeConnectError::MissingTopologyPrecondition(
                    "main SkyLight connection",
                )),
            )
            &&& answer ==> action == CheckAction::Finish(Ok(()))
        },
        !answer ==> final(check).phase is Finished,
{
}

} // verus!
