//! Assertions about the workloads of a guest, from its container events.
//!
//! Whenever a container's main process or an exec session in it dies, the exit
//! code should be zero.

use vstd::prelude::*;
use vstd::string::StringExecFns;

verus! {

/// Assertion message for the death of an exec session.
pub const EXEC_DEATH_MSG: &'static str = "exec exit code is zero";

/// Exit code of an exec session that was killed on purpose, to quiesce the
/// workload: 128 and the number of SIGKILL.
pub const BARRIER_KILL_EXIT_CODE: i64 = 137;

/// A container event. Fields that an event does not carry are absent.
#[derive(Debug)]
pub struct Event {
    /// What the event is about.
    pub type_: Option<String>,
    /// What happened.
    pub status: Option<String>,
    /// Exit code of a process that died.
    pub exit_code: Option<i64>,
    /// Name of the container.
    pub name: Option<String>,
}

/// The text of an optional string.
pub open spec fn text(s: Option<String>) -> Option<Seq<char>> {
    match s {
        Some(t) => Some(t@),
        None => None,
    }
}

/// Whether an optional string is `word`.
fn says(s: &Option<String>, word: &str) -> (r: bool)
    ensures
        r == (text(*s) == Some(word@)),
{
    match s {
        Some(t) => {
            let wanted: String = word.to_owned();
            *t == wanted
        },
        None => false,
    }
}

impl Event {
    /// The exit code of the death; a missing one counts as clean.
    pub open spec fn code(&self) -> i64 {
        match self.exit_code {
            Some(code) => code,
            None => 0,
        }
    }

    /// The message for a container's death.
    pub open spec fn container_message(&self) -> Seq<char> {
        let name = match self.name {
            Some(name) => name@,
            None => "<unknown>"@,
        };
        "container "@ + name + " exit code is zero"@
    }

    /// The exit code and the message of a death that is asserted on.
    pub open spec fn asserted(&self) -> Option<(i64, Seq<char>)> {
        if text(self.type_) != Some("container"@) {
            None
        } else if text(self.status) == Some("died"@) {
            Some((self.code(), self.container_message()))
        } else if text(self.status) == Some("exec_died"@) {
            if self.code() == BARRIER_KILL_EXIT_CODE {
                None
            } else {
                Some((self.code(), EXEC_DEATH_MSG@))
            }
        } else {
            None
        }
    }

    fn container_death_message(&self) -> (r: String)
        ensures
            r@ == self.container_message(),
    {
        let mut message: String = "container ".to_owned();
        match &self.name {
            Some(name) => {
                message.append(name.as_str());
            },
            None => {
                message.append("<unknown>");
            },
        }
        message.append(" exit code is zero");
        message
    }

    /// For the death of a container or of an exec session, the exit code and
    /// the assertion message. Exec sessions that were killed on purpose are
    /// passed over; container deaths never are.
    pub fn death(&self) -> (r: Option<(i64, String)>)
        ensures
            match r {
                Some((code, message)) => self.asserted() == Some((code, message@)),
                None => self.asserted() is None,
            },
    {
        if !says(&self.type_, "container") {
            return None;
        }
        let exit_code: i64 = match self.exit_code {
            Some(code) => code,
            None => 0,
        };
        if says(&self.status, "died") {
            return Some((exit_code, self.container_death_message()));
        }
        if says(&self.status, "exec_died") {
            if exit_code == BARRIER_KILL_EXIT_CODE {
                return None;
            }
            return Some((exit_code, EXEC_DEATH_MSG.to_owned()));
        }
        None
    }
}

/// An invariant that should always hold: two numbers are equal.
#[derive(Debug)]
pub struct AlwaysEq {
    /// What the assertion is about.
    pub message: String,
    /// Observed value.
    pub x: i64,
    /// Expected value.
    pub y: i64,
}

impl AlwaysEq {
    /// The assertion that an exit code is zero.
    pub fn exit_code(exit_code: i64, message: String) -> (r: Self)
        ensures
            r == (AlwaysEq { message, x: exit_code, y: 0 }),
    {
        AlwaysEq { message, x: exit_code, y: 0 }
    }

    /// Whether the invariant held.
    pub fn holds(&self) -> (r: bool)
        ensures
            r == (self.x == self.y),
    {
        self.x == self.y
    }
}

/// The death of a container is asserted on whatever its exit code.
pub proof fn container_deaths_are_asserted(event: Event)
    requires
        text(event.type_) == Some("container"@),
        text(event.status) == Some("died"@),
    ensures
        event.asserted() == Some((event.code(), event.container_message())),
{
}

/// The death of an exec session is asserted on with its exit code, but for one that
/// was killed on purpose; a missing exit code counts as zero. Nothing else is asserted
/// on, and no event that is not about a container.
pub proof fn only_deaths_are_asserted(event: Event)
    ensures
        text(event.type_) != Some("container"@) ==> event.asserted() is None,
        text(event.status) != Some("died"@) && text(event.status) != Some("exec_died"@)
            ==> event.asserted() is None,
        text(event.type_) == Some("container"@) && text(event.status) == Some("exec_died"@)
            && text(event.status) != Some("died"@) ==> {
            &&& event.exit_code == Some(137i64) ==> event.asserted() is None
            &&& event.exit_code is None ==> event.asserted() == Some(
                (0i64, "exec exit code is zero"@),
            )
            &&& event.exit_code is Some && event.exit_code->0 != 137 ==> event.asserted() == Some(
                (event.exit_code->0, "exec exit code is zero"@),
            )
        },
        text(event.type_) == Some("container"@) && text(event.status) == Some("died"@) ==> {
            let who = match event.name {
                Some(name) => name@,
                None => "<unknown>"@,
            };
            let code = match event.exit_code {
                Some(code) => code,
                None => 0,
            };
            event.asserted() == Some((code, "container "@ + who + " exit code is zero"@))
        },
{
}

} // verus!
