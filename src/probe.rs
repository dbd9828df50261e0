use vstd::prelude::*;
use crate::role::{extract_role, role_text};

verus! {

/// Why one probe produced no response.
#[derive(Debug, Clone, PartialEq, Eq)]
pub enum ProbeError {
    /// No connection was established within the connect phase.
    ConnectTimeout,
    /// The response was not read to its end within the read phase.
    ReadTimeout,
    /// A lower-level I/O failure, with the underlying cause's description.
    ConnectionError(String),
}

pub open spec fn connect_timeout_text() -> Seq<char> {
    "deadline has elapsed while connecting"@
}

pub open spec fn read_timeout_text() -> Seq<char> {
    "deadline has elapsed while reading"@
}

/// The text that stands in a row for a failed probe.
pub open spec fn error_text(e: ProbeError) -> Seq<char> {
    match e {
        ProbeError::ConnectTimeout => connect_timeout_text(),
        ProbeError::ReadTimeout => read_timeout_text(),
        ProbeError::ConnectionError(cause) => cause@,
    }
}

impl ProbeError {
    /// A human-readable description of the failure.
    pub fn message(&self) -> (r: String)
        ensures
            r@ == error_text(*self),
    {
        match self {
            ProbeError::ConnectTimeout => {
                proof {
                    reveal_strlit("deadline has elapsed while connecting");
                }
                String::from_str("deadline has elapsed while connecting")
            },
            ProbeError::ReadTimeout => {
                proof {
                    reveal_strlit("deadline has elapsed while reading");
                }
                String::from_str("deadline has elapsed while reading")
            },
            ProbeError::ConnectionError(cause) => cause.clone(),
        }
    }
}

pub open spec fn role_alias() -> Seq<char> {
    seq!['r', 'o', 'l', 'e']
}

pub open spec fn stat_command() -> Seq<char> {
    seq!['s', 't', 'a', 't']
}

/// The command that goes on the wire: the role alias is served by `stat`,
/// every other command is sent as given.
pub open spec fn wire_command_spec(command: Seq<char>) -> Seq<char> {
    if command == role_alias() {
        stat_command()
    } else {
        command
    }
}

/// Whether the command is the role alias, which the protocol does not know.
pub fn is_role_alias(command: &str) -> (b: bool)
    ensures
        b == (command@ == role_alias()),
{
    if command.unicode_len() != 4 {
        return false;
    }
    let b = command.get_char(0) == 'r' && command.get_char(1) == 'o' && command.get_char(2) == 'l'
        && command.get_char(3) == 'e';
    assert(b == (command@ =~= role_alias()));
    b
}

/// The command to write to the server for a requested command.
pub fn wire_command(command: &str) -> (r: String)
    ensures
        r@ == wire_command_spec(command@),
{
    if is_role_alias(command) {
        proof {
            reveal_strlit("stat");
        }
        let r = String::from_str("stat");
        assert(r@ =~= stat_command());
        r
    } else {
        String::from_str(command)
    }
}

/// What a probe returns for a requested command, given the outcome of the
/// exchange of its wire command, when post-processing succeeds.
pub open spec fn probe_result(command: Seq<char>, raw: Result<String, ProbeError>) -> Result<
    Seq<char>,
    ProbeError,
> {
    match raw {
        Ok(rsp) => if command == role_alias() {
            Ok(role_text(rsp@))
        } else {
            Ok(rsp@)
        },
        Err(e) => Err(e),
    }
}

pub open spec fn outcome_view(o: Result<String, ProbeError>) -> Result<Seq<char>, ProbeError> {
    match o {
        Ok(s) => Ok(s@),
        Err(e) => Err(e),
    }
}

/// Completes a probe once the exchange of its wire command is over: an
/// error passes through, a response to the role alias is reduced to the
/// role (or kept whole when it reports none), any other response is
/// returned untouched.
pub fn finish_probe(command: &str, raw: Result<String, ProbeError>) -> (r: Result<
    String,
    ProbeError,
>)
    ensures
        outcome_view(r) == probe_result(command@, raw),
        raw is Ok <==> r is Ok,
        raw is Err ==> r == raw,
        raw is Ok && command@ != role_alias() ==> r == raw,
{
    match raw {
        Ok(rsp) => {
            if is_role_alias(command) {
                Ok(extract_role(rsp.as_str()))
            } else {
                Ok(rsp)
            }
        },
        Err(e) => Err(e),
    }
}

/// A time budget, as whole seconds and the nanoseconds beyond them.
#[derive(Debug, Clone, Copy, PartialEq, Eq)]
pub struct Timeout {
    pub secs: u64,
    pub nanos: u32,
}

impl Timeout {
    pub open spec fn wf(&self) -> bool {
        self.nanos < 1_000_000_000
    }

    /// The budget in nanoseconds.
    pub open spec fn total(&self) -> int {
        self.secs * 1_000_000_000 + self.nanos
    }

    /// The budget of each of the two phases of a probe, connect and read:
    /// half of the whole, rounded down to the nanosecond, so that the two
    /// phases together never exceed it.
    pub fn phase(&self) -> (r: Timeout)
        requires
            self.wf(),
        ensures
            r.wf(),
            r.total() == self.total() / 2,
            r.total() + r.total() <= self.total(),
    {
        let carry: u64 = (self.secs % 2) * 1_000_000_000 + self.nanos as u64;
        let r = Timeout { secs: self.secs / 2, nanos: (carry / 2) as u32 };
        assert(r.total() == self.total() / 2) by (nonlinear_arith)
            requires
                r.secs == self.secs / 2,
                r.nanos == carry / 2,
                carry == (self.secs % 2) * 1_000_000_000 + self.nanos,
        ;
        r
    }
}

} // verus!
