//! Dialling the upstream socket: a bounded number of attempts with a
//! linear backoff between them, and the readiness probe.
//!
//! The connecting and the sleeping are the caller's. After each attempt the
//! caller reports how it ended and is told what to do next.

use vstd::prelude::*;
use std::sync::Arc;
use crate::config::WolfProxyConfig;
use crate::fault::Fault;

verus! {

/// How one attempt to connect ended.
#[derive(Clone, Copy, Debug, PartialEq, Eq, Structural)]
pub enum ConnectOutcome {
    /// The upstream accepted the connection.
    Connected,
    /// The attempt ran into the connect timeout.
    TimedOut,
    /// The socket is missing, refused, may not be opened, or failed
    /// otherwise.
    Failed,
}

/// What follows an attempt to connect.
#[derive(Clone, Copy, Debug, PartialEq, Eq, Structural)]
pub enum DialStep {
    /// The connection stands.
    Connected,
    /// Sleep for `wait_ms` milliseconds, then make the attempt of the given
    /// number.
    Retry { attempt: u32, wait_ms: u128 },
    /// The budget is used up: the dial fails with this fault.
    GiveUp { fault: Fault },
}

/// The fault that a failed dial ends with, by the way its last attempt
/// ended.
pub open spec fn dial_fault(outcome: ConnectOutcome) -> Fault {
    match outcome {
        ConnectOutcome::TimedOut => Fault::DialTimeout,
        _ => Fault::Unavailable,
    }
}

/// What follows the attempt of number `attempt`: attempts count from one,
/// a connection ends the dial, and a failure is retried after `attempt`
/// times the retry delay unless `attempt` was the last one allowed.
pub open spec fn dial_next(cfg: WolfProxyConfig, attempt: u32, outcome: ConnectOutcome) -> DialStep {
    if outcome == ConnectOutcome::Connected {
        DialStep::Connected
    } else if attempt >= cfg.retry_attempts {
        DialStep::GiveUp { fault: dial_fault(outcome) }
    } else {
        DialStep::Retry {
            attempt: (attempt + 1) as u32,
            wait_ms: (attempt * cfg.retry_delay_ms) as u128,
        }
    }
}

/// The sum of `i * delay` for `i` from `from` up to, but without, `to`.
pub open spec fn backoff_sum(delay: nat, from: nat, to: nat) -> nat
    decreases to - from,
{
    if from >= to {
        0
    } else {
        from * delay + backoff_sum(delay, from + 1, to)
    }
}

/// The longest that a dial can take before it fails: the sleeps between
/// the attempts, and the connect timeout once for each attempt.
pub open spec fn worst_case_wait_ms(cfg: WolfProxyConfig) -> nat {
    backoff_sum(cfg.retry_delay_ms as nat, 1, cfg.retry_attempts as nat) + cfg.retry_attempts as nat
        * cfg.connect_timeout_ms as nat
}

/// A dial as it runs against a row of outcomes, from the attempt of number
/// `attempt` on.
pub struct DialTrace {
    /// Attempts made.
    pub attempts: nat,
    /// Milliseconds slept between them.
    pub slept_ms: nat,
    /// How the dial ended, if the outcomes sufficed to end it.
    pub end: Option<DialStep>,
}

/// The trace of a dial that starts with the attempt of number `attempt`
/// and meets the given outcomes, one for each attempt, until it ends.
pub open spec fn dial_trace(cfg: WolfProxyConfig, attempt: u32, outcomes: Seq<ConnectOutcome>) -> DialTrace
    decreases outcomes.len(),
{
    if outcomes.len() == 0 {
        DialTrace { attempts: 0, slept_ms: 0, end: None }
    } else {
        match dial_next(cfg, attempt, outcomes[0]) {
            DialStep::Retry { attempt: next, wait_ms } => {
                let rest = dial_trace(cfg, next, outcomes.subrange(1, outcomes.len() as int));
                DialTrace {
                    attempts: 1 + rest.attempts,
                    slept_ms: wait_ms as nat + rest.slept_ms,
                    end: rest.end,
                }
            },
            end => DialTrace { attempts: 1, slept_ms: 0, end: Some(end) },
        }
    }
}

/// The proxy: it holds its settings and decides each step of an exchange.
#[derive(Debug, Clone)]
pub struct WolfProxyClient {
    pub config: WolfProxyConfig,
}

/// What the handlers of the proxy routes share.
#[derive(Clone)]
pub struct WolfProxyState {
    pub client: Arc<WolfProxyClient>,
}

/// Whether the upstream is ready: the socket exists and one attempt to
/// connect to it succeeded.
pub open spec fn is_ready(socket_exists: bool, connect: Option<ConnectOutcome>) -> bool {
    socket_exists && connect == Some(ConnectOutcome::Connected)
}

impl WolfProxyClient {
    /// A proxy with the given settings.
    pub fn new(config: WolfProxyConfig) -> (client: Self)
        ensures
            client.config == config,
    {
        WolfProxyClient { config }
    }

    /// Decides what follows the attempt of number `attempt`.
    pub fn after_connect(&self, attempt: u32, outcome: ConnectOutcome) -> (step: DialStep)
        ensures
            step == dial_next(self.config, attempt, outcome),
    {
        match outcome {
            ConnectOutcome::Connected => DialStep::Connected,
            ConnectOutcome::TimedOut => {
                if attempt >= self.config.retry_attempts {
                    DialStep::GiveUp { fault: Fault::DialTimeout }
                } else {
                    DialStep::Retry { attempt: attempt + 1, wait_ms: self.backoff(attempt) }
                }
            },
            ConnectOutcome::Failed => {
                if attempt >= self.config.retry_attempts {
                    DialStep::GiveUp { fault: Fault::Unavailable }
                } else {
                    DialStep::Retry { attempt: attempt + 1, wait_ms: self.backoff(attempt) }
                }
            },
        }
    }

    /// The sleep after the failed attempt of number `attempt`, in
    /// milliseconds.
    pub fn backoff(&self, attempt: u32) -> (wait_ms: u128)
        ensures
            wait_ms == attempt * self.config.retry_delay_ms,
    {
        let a: u128 = attempt as u128;
        let d: u128 = self.config.retry_delay_ms as u128;
        assert(a * d <= 0xffff_ffff * 0xffff_ffff_ffff_ffff) by (nonlinear_arith)
            requires
                0 <= a <= 0xffff_ffff,
                0 <= d <= 0xffff_ffff_ffff_ffff,
        ;
        a * d
    }

    /// The verdict of the readiness probe. `connect` is how the probe's one
    /// attempt to connect ended, or `None` where none was made.
    pub fn check_readiness(&self, socket_exists: bool, connect: Option<ConnectOutcome>) -> (r: Result<
        (),
        Fault,
    >)
        ensures
            r.is_ok() <==> is_ready(socket_exists, connect),
            r.is_err() ==> r == Err::<(), Fault>(Fault::Unavailable),
    {
        if !socket_exists {
            return Err(Fault::Unavailable);
        }
        match connect {
            Some(ConnectOutcome::Connected) => Ok(()),
            _ => Err(Fault::Unavailable),
        }
    }
}

/// However the attempts end, a dial makes no more attempts than the
/// settings allow and sleeps no longer than the backoff sums up to: with the
/// connect timeout for each attempt it stays within the worst case.
pub proof fn lemma_dial_budget(cfg: WolfProxyConfig, attempt: u32, outcomes: Seq<ConnectOutcome>)
    requires
        1 <= attempt <= cfg.retry_attempts,
    ensures
        dial_trace(cfg, attempt, outcomes).attempts <= cfg.retry_attempts - attempt + 1,
        dial_trace(cfg, attempt, outcomes).slept_ms <= backoff_sum(
            cfg.retry_delay_ms as nat,
            attempt as nat,
            cfg.retry_attempts as nat,
        ),
    decreases outcomes.len(),
{
    if outcomes.len() > 0 {
        match dial_next(cfg, attempt, outcomes[0]) {
            DialStep::Retry { attempt: next, wait_ms } => {
                lemma_dial_budget(cfg, next, outcomes.subrange(1, outcomes.len() as int));
                lemma_backoff_fits(attempt, cfg.retry_delay_ms);
            },
            _ => {},
        }
    }
}

/// A dial from the first attempt on, with the connect timeout spent on
/// each attempt, takes no longer than the worst case.
pub proof fn lemma_dial_within_worst_case(cfg: WolfProxyConfig, outcomes: Seq<ConnectOutcome>)
    requires
        cfg.retry_attempts >= 1,
    ensures
        dial_trace(cfg, 1, outcomes).slept_ms + dial_trace(cfg, 1, outcomes).attempts
            * cfg.connect_timeout_ms as nat <= worst_case_wait_ms(cfg),
{
    lemma_dial_budget(cfg, 1, outcomes);
    let made = dial_trace(cfg, 1, outcomes).attempts;
    let allowed = cfg.retry_attempts as nat;
    let timeout = cfg.connect_timeout_ms as nat;
    assert(made * timeout <= allowed * timeout) by (nonlinear_arith)
        requires
            made <= allowed,
    ;
}

/// Against a socket that never accepts, a dial makes exactly as many
/// attempts as the settings allow, sleeps the whole backoff between them,
/// and fails by the way its last attempt ended.
pub proof fn lemma_never_accepting(
    cfg: WolfProxyConfig,
    attempt: u32,
    outcomes: Seq<ConnectOutcome>,
)
    requires
        1 <= attempt <= cfg.retry_attempts,
        outcomes.len() >= cfg.retry_attempts - attempt + 1,
        forall|i: int| 0 <= i < outcomes.len() ==> outcomes[i] != ConnectOutcome::Connected,
    ensures
        dial_trace(cfg, attempt, outcomes).attempts == cfg.retry_attempts - attempt + 1,
        dial_trace(cfg, attempt, outcomes).slept_ms == backoff_sum(
            cfg.retry_delay_ms as nat,
            attempt as nat,
            cfg.retry_attempts as nat,
        ),
        dial_trace(cfg, attempt, outcomes).end == Some(
            DialStep::GiveUp { fault: dial_fault(outcomes[cfg.retry_attempts - attempt]) },
        ),
    decreases outcomes.len(),
{
    match dial_next(cfg, attempt, outcomes[0]) {
        DialStep::Retry { attempt: next, wait_ms } => {
            let rest = outcomes.subrange(1, outcomes.len() as int);
            lemma_never_accepting(cfg, next, rest);
            lemma_backoff_fits(attempt, cfg.retry_delay_ms);
            assert(rest[cfg.retry_attempts - next] == outcomes[cfg.retry_attempts - attempt]);
        },
        _ => {},
    }
}

/// An attempt that connects ends the dial at once, without a sleep.
pub proof fn lemma_connect_ends_dial(cfg: WolfProxyConfig, attempt: u32, outcomes: Seq<ConnectOutcome>)
    requires
        outcomes.len() > 0,
        outcomes[0] == ConnectOutcome::Connected,
    ensures
        dial_trace(cfg, attempt, outcomes).attempts == 1,
        dial_trace(cfg, attempt, outcomes).slept_ms == 0,
        dial_trace(cfg, attempt, outcomes).end == Some(DialStep::Connected),
{
}

/// The backoff in closed form: twice the sum is the delay times
/// `to * (to - 1) - from * (from - 1)`.
pub proof fn lemma_backoff_closed_form(delay: nat, from: nat, to: nat)
    requires
        1 <= from <= to,
    ensures
        2 * backoff_sum(delay, from, to) == delay * (to * (to - 1) - from * (from - 1)),
    decreases to - from,
{
    if from < to {
        lemma_backoff_closed_form(delay, from + 1, to);
        let rest = backoff_sum(delay, from + 1, to);
        assert(2 * (from * delay + rest) == delay * (to * (to - 1) - from * (from - 1)))
            by (nonlinear_arith)
            requires
                2 * rest == delay * (to * (to - 1) - (from + 1) * from),
                1 <= from,
        ;
    } else {
        assert(delay * (to * (to - 1) - from * (from - 1)) == 0) by (nonlinear_arith)
            requires
                from == to,
        ;
    }
}

proof fn lemma_backoff_fits(attempt: u32, delay: u64)
    ensures
        ((attempt * delay) as u128) as nat == attempt as nat * delay as nat,
{
    assert(0 <= attempt * delay <= 0xffff_ffff * 0xffff_ffff_ffff_ffff) by (nonlinear_arith)
        requires
            0 <= attempt <= 0xffff_ffff,
            0 <= delay <= 0xffff_ffff_ffff_ffff,
    ;
}

} // verus!
