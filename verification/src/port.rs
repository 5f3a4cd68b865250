//! Waiting for a port: readiness of the server is inferred from its port
//! being occupied.

use vstd::prelude::*;
use vstd::string::StringExecFns;
use crate::process::ProcessManager;

verus! {

/// The pause between two probes of the port, in milliseconds.
pub const POLL_MILLIS: u64 = 100;

/// What the caller observed while waiting.
#[derive(Clone, Copy, Debug, PartialEq, Eq, Structural)]
pub enum PortEvent {
    /// The clock was read: so many whole seconds have passed since the wait
    /// began.
    Clock { elapsed_seconds: u64 },
    /// The port was probed: `free` tells whether it could still be bound,
    /// `last` is what the step that asked for the probe said.
    Probed { free: bool, last: bool },
}

/// What the caller does next while waiting.
#[derive(Clone, Copy, Debug, PartialEq, Eq, Structural)]
pub enum PortStep {
    /// Try to bind the port and report whether that worked, together with
    /// `last`, which tells that the time is up and this probe decides.
    Probe { port: u16, last: bool },
    /// Sleep, then read the clock and report it.
    Sleep { millis: u64 },
    /// The wait is over: the port is occupied, or the time is up with the
    /// port still free.
    Finished { occupied: bool },
}

/// The step that follows an observation. Every clock reading asks for a
/// probe, the last one where the reading is at or past the timeout. A probe
/// that found the port taken ends the wait with success; one that found it
/// free ends the wait without success where it was the last, and asks for a
/// pause otherwise.
pub open spec fn spec_wait_step(port: u16, timeout_seconds: u64, event: PortEvent) -> PortStep {
    match event {
        PortEvent::Clock { elapsed_seconds } => PortStep::Probe {
            port,
            last: elapsed_seconds >= timeout_seconds,
        },
        PortEvent::Probed { free, last } => if !free {
            PortStep::Finished { occupied: true }
        } else if last {
            PortStep::Finished { occupied: false }
        } else {
            PortStep::Sleep { millis: POLL_MILLIS }
        },
    }
}

impl ProcessManager {
    /// Decides the next step of a wait for `port` that gives up after
    /// `timeout_seconds`. The wait begins with a clock reading of zero
    /// seconds. It never ends without success before a probe at or past the
    /// timeout has found the port free.
    pub fn wait_for_port(port: u16, timeout_seconds: u64, event: PortEvent) -> (step: PortStep)
        ensures
            step == spec_wait_step(port, timeout_seconds, event),
    {
        match event {
            PortEvent::Clock { elapsed_seconds } => PortStep::Probe {
                port,
                last: elapsed_seconds >= timeout_seconds,
            },
            PortEvent::Probed { free, last } => {
                if !free {
                    PortStep::Finished { occupied: true }
                } else if last {
                    PortStep::Finished { occupied: false }
                } else {
                    PortStep::Sleep { millis: POLL_MILLIS }
                }
            },
        }
    }
}

/// The text of one decimal digit.
pub open spec fn spec_digit(d: int) -> Seq<char> {
    if d == 0 {
        "0"@
    } else if d == 1 {
        "1"@
    } else if d == 2 {
        "2"@
    } else if d == 3 {
        "3"@
    } else if d == 4 {
        "4"@
    } else if d == 5 {
        "5"@
    } else if d == 6 {
        "6"@
    } else if d == 7 {
        "7"@
    } else if d == 8 {
        "8"@
    } else {
        "9"@
    }
}

/// A number written in decimal, without leading zeros.
pub open spec fn spec_decimal(n: int) -> Seq<char>
    decreases n,
{
    if n < 10 {
        spec_digit(n)
    } else {
        spec_decimal(n / 10) + spec_digit(n % 10)
    }
}

/// The address that a probe tries to bind: every interface, on `port`.
pub open spec fn spec_probe_address(port: u16) -> Seq<char> {
    "0.0.0.0:"@ + spec_decimal(port as int)
}

/// The address of the server as the window sees it.
pub open spec fn spec_server_url(port: u16) -> Seq<char> {
    "http://localhost:"@ + spec_decimal(port as int)
}

/// Writes one decimal digit.
fn digit(d: u16) -> (text: &'static str)
    requires
        d < 10,
    ensures
        text@ == spec_digit(d as int),
{
    if d == 0 {
        "0"
    } else if d == 1 {
        "1"
    } else if d == 2 {
        "2"
    } else if d == 3 {
        "3"
    } else if d == 4 {
        "4"
    } else if d == 5 {
        "5"
    } else if d == 6 {
        "6"
    } else if d == 7 {
        "7"
    } else if d == 8 {
        "8"
    } else {
        "9"
    }
}

/// Writes a number in decimal.
pub fn decimal(n: u16) -> (text: String)
    ensures
        text@ == spec_decimal(n as int),
    decreases n,
{
    if n < 10 {
        String::from_str(digit(n))
    } else {
        decimal(n / 10).concat(digit(n % 10))
    }
}

/// The address that a probe of `port` tries to bind. The port is free where
/// binding it works, and occupied where it fails.
pub fn probe_address(port: u16) -> (address: String)
    ensures
        address@ == spec_probe_address(port),
{
    String::from_str("0.0.0.0:").concat(decimal(port).as_str())
}

/// The address that the window is pointed at once the server listens on
/// `port`.
pub fn server_url(port: u16) -> (url: String)
    ensures
        url@ == spec_server_url(port),
{
    String::from_str("http://localhost:").concat(decimal(port).as_str())
}

/// The script that points the window at `url`.
pub fn navigation_script(url: &str) -> (script: String)
    ensures
        script@ == "window.location.href = '"@ + url@ + "';"@,
{
    String::from_str("window.location.href = '").concat(url).concat("';")
}

/// One round of a wait: the clock reading at its start and what the probe
/// that follows it finds.
pub struct Round {
    pub elapsed_seconds: u64,
    pub free: bool,
}

/// The verdict of one round, following `spec_wait_step` from the clock
/// reading to the probe: `Some(true)` when the probe found the port
/// occupied, `Some(false)` when it was the last and found the port free,
/// `None` when the wait goes on.
pub open spec fn spec_round_outcome(port: u16, timeout_seconds: u64, round: Round) -> Option<bool> {
    match spec_wait_step(
        port,
        timeout_seconds,
        PortEvent::Clock { elapsed_seconds: round.elapsed_seconds },
    ) {
        PortStep::Probe { last, .. } => match spec_wait_step(
            port,
            timeout_seconds,
            PortEvent::Probed { free: round.free, last },
        ) {
            PortStep::Finished { occupied } => Some(occupied),
            _ => None,
        },
        PortStep::Finished { occupied } => Some(occupied),
        PortStep::Sleep { .. } => None,
    }
}

/// The verdict of a wait that lives through the given rounds: that of the
/// first round that ends it, `None` while it is still going on after the
/// last round.
pub open spec fn spec_wait_outcome(port: u16, timeout_seconds: u64, rounds: Seq<Round>) -> Option<
    bool,
>
    decreases rounds.len(),
{
    if rounds.len() == 0 {
        None
    } else {
        match spec_round_outcome(port, timeout_seconds, rounds[0]) {
            Some(occupied) => Some(occupied),
            None => spec_wait_outcome(port, timeout_seconds, rounds.skip(1)),
        }
    }
}

/// A round that lets the wait go on: its clock reading is within the timeout
/// and its probe finds the port free.
pub open spec fn quiet_round(timeout_seconds: u64, round: Round) -> bool {
    round.elapsed_seconds < timeout_seconds && round.free
}

/// Round `i` is the first that is not quiet: the wait reaches it and ends
/// in it.
pub open spec fn ends_at(timeout_seconds: u64, rounds: Seq<Round>, i: int) -> bool {
    0 <= i < rounds.len() && !quiet_round(timeout_seconds, rounds[i]) && forall|j: int|
        0 <= j < i ==> quiet_round(timeout_seconds, #[trigger] rounds[j])
}

/// The wait reaches a round whose probe finds the port occupied: a listener
/// bound the port before the last probe, which is made at or past the
/// timeout.
pub open spec fn occupied_in_time(timeout_seconds: u64, rounds: Seq<Round>) -> bool {
    exists|i: int| #[trigger] ends_at(timeout_seconds, rounds, i) && !rounds[i].free
}

/// The wait reaches a round at or past the timeout whose probe finds the
/// port still free.
pub open spec fn ran_out(timeout_seconds: u64, rounds: Seq<Round>) -> bool {
    exists|i: int| #[trigger] ends_at(timeout_seconds, rounds, i) && rounds[i].free
}

/// Every round is quiet.
pub open spec fn all_quiet(timeout_seconds: u64, rounds: Seq<Round>) -> bool {
    forall|j: int| 0 <= j < rounds.len() ==> quiet_round(timeout_seconds, #[trigger] rounds[j])
}

/// Behind a quiet first round, the rounds end at `i + 1` exactly when the
/// rounds after the first end at `i`, and in the same round.
pub proof fn lemma_ends_shift(timeout_seconds: u64, rounds: Seq<Round>, i: int)
    requires
        rounds.len() > 0,
        quiet_round(timeout_seconds, rounds[0]),
    ensures
        ends_at(timeout_seconds, rounds, i + 1) <==> ends_at(timeout_seconds, rounds.skip(1), i),
        0 <= i < rounds.skip(1).len() ==> rounds.skip(1)[i] == rounds[i + 1],
        !ends_at(timeout_seconds, rounds, 0),
{
    let rest = rounds.skip(1);
    assert(forall|j: int| 0 <= j < rest.len() ==> rest[j] == rounds[j + 1]);
    if ends_at(timeout_seconds, rounds, i + 1) {
        assert forall|j: int| 0 <= j < i implies quiet_round(
            timeout_seconds,
            #[trigger] rest[j],
        ) by {
            assert(rest[j] == rounds[j + 1]);
        }
    }
    if ends_at(timeout_seconds, rest, i) {
        assert forall|j: int| 0 <= j < i + 1 implies quiet_round(
            timeout_seconds,
            #[trigger] rounds[j],
        ) by {
            if j > 0 {
                assert(rounds[j] == rest[j - 1]);
            }
        }
    }
}

/// A wait ends with success exactly when it reaches a probe that finds the
/// port occupied, the last probe at or past the timeout included; it ends
/// without success exactly when it reaches a probe at or past the timeout
/// that finds the port still free; otherwise it is still going on.
pub proof fn lemma_wait_outcome(port: u16, timeout_seconds: u64, rounds: Seq<Round>)
    ensures
        spec_wait_outcome(port, timeout_seconds, rounds) == Some(true) <==> occupied_in_time(
            timeout_seconds,
            rounds,
        ),
        spec_wait_outcome(port, timeout_seconds, rounds) == Some(false) <==> ran_out(
            timeout_seconds,
            rounds,
        ),
        spec_wait_outcome(port, timeout_seconds, rounds) is None <==> all_quiet(
            timeout_seconds,
            rounds,
        ),
    decreases rounds.len(),
{
    if rounds.len() > 0 {
        let rest = rounds.skip(1);
        if quiet_round(timeout_seconds, rounds[0]) {
            lemma_wait_outcome(port, timeout_seconds, rest);
            assert forall|i: int| #[trigger]
                ends_at(timeout_seconds, rounds, i) implies ends_at(timeout_seconds, rest, i - 1)
                && rest[i - 1] == rounds[i] by {
                lemma_ends_shift(timeout_seconds, rounds, i - 1);
            }
            assert forall|i: int| #[trigger]
                ends_at(timeout_seconds, rest, i) implies ends_at(timeout_seconds, rounds, i + 1)
                && rest[i] == rounds[i + 1] by {
                lemma_ends_shift(timeout_seconds, rounds, i);
            }
            assert(all_quiet(timeout_seconds, rest) ==> all_quiet(timeout_seconds, rounds)) by {
                if all_quiet(timeout_seconds, rest) {
                    assert forall|j: int| 0 <= j < rounds.len() implies quiet_round(
                        timeout_seconds,
                        #[trigger] rounds[j],
                    ) by {
                        if j > 0 {
                            assert(rounds[j] == rest[j - 1]);
                        }
                    }
                }
            }
            assert(all_quiet(timeout_seconds, rounds) ==> all_quiet(timeout_seconds, rest)) by {
                if all_quiet(timeout_seconds, rounds) {
                    assert forall|j: int| 0 <= j < rest.len() implies quiet_round(
                        timeout_seconds,
                        #[trigger] rest[j],
                    ) by {
                        assert(rest[j] == rounds[j + 1]);
                    }
                }
            }
        } else {
            assert(ends_at(timeout_seconds, rounds, 0));
            assert forall|i: int| #[trigger] ends_at(timeout_seconds, rounds, i) implies i == 0 by {
                if i > 0 {
                    assert(quiet_round(timeout_seconds, rounds[0]));
                }
            }
        }
    }
}

/// A listener that binds the port before the time is up and keeps it is not
/// missed: where the wait goes on until some round finds the port occupied,
/// it ends with success, however late that round begins.
pub proof fn lemma_listener_is_found(port: u16, timeout_seconds: u64, rounds: Seq<Round>, i: int)
    requires
        0 <= i < rounds.len(),
        !rounds[i].free,
        forall|j: int| 0 <= j < i ==> quiet_round(timeout_seconds, #[trigger] rounds[j]),
    ensures
        spec_wait_outcome(port, timeout_seconds, rounds) == Some(true),
{
    lemma_wait_outcome(port, timeout_seconds, rounds);
    assert(ends_at(timeout_seconds, rounds, i));
}

} // verus!
