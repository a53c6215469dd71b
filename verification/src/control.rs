//! Run control: the messages the workers emit, the coordinator's reaction to
//! them, the check at the top of every worker loop, and the run configuration.
//!
//! The channels, threads and sleeps themselves live outside the library; the
//! functions here decide, for each observed message or flag, what the run
//! does next.

use vstd::prelude::*;
use crate::User;
use crate::catalog::Game;
use crate::token::RegulationToken;
use crate::token::delay_of;

verus! {

/// Why a run (or one unit of work) went wrong. A store error and an
/// exhausted token are fatal; a fetch error is recoverable and only ever
/// travels in a notification.
#[derive(Debug)]
pub enum EngineError {
    Store(String),
    Fetch(String),
    TokenStopped,
}

/// What a worker reports to the coordinator after a unit of work.
#[derive(Debug)]
pub enum Message {
    Fatal(EngineError),
    Stabilized,
    UserProgress(User),
    GameProgress(Game),
    Notification(EngineError),
    Info(Game),
}

/// The one order a worker can receive: stop at the top of its loop.
#[derive(Clone, Copy, Debug, PartialEq, Eq, Structural)]
pub enum Order {
    Stop,
}

/// Should the coordinator, on seeing this message with this cancellation
/// flag, broadcast stop orders to both workers?
pub open spec fn broadcast_spec(msg: &Message, cancelled: bool) -> bool {
    msg is Fatal || msg is Stabilized || cancelled
}

/// The coordinator's view of the run: whether stop orders have been
/// broadcast, and the first fatal error seen, which decides the run's result.
pub struct Coordinator {
    pub draining: bool,
    pub failure: Option<EngineError>,
}

impl Coordinator {
    pub fn new() -> (c: Coordinator)
        ensures
            !c.draining,
            c.failure is None,
    {
        Coordinator { draining: false, failure: None }
    }

    /// React to one inbound message, together with the externally observed
    /// cancellation flag: a fatal error is recorded (the first one wins) and
    /// stops both workers; the terminal "all items stabilized" signal stops
    /// both workers; every other message is handed back for the caller's
    /// progress callback. Cancellation stops the workers whatever the
    /// message was.
    pub fn step(&mut self, msg: Message, cancelled: bool) -> (r: (bool, Option<Message>))
        ensures
            r.0 == broadcast_spec(&msg, cancelled),
            final(self).draining == (old(self).draining || broadcast_spec(&msg, cancelled)),
            msg is Fatal || msg is Stabilized ==> r.1 is None,
            !(msg is Fatal || msg is Stabilized) ==> r.1 == Some(msg),
            (match msg {
                Message::Fatal(e) => final(self).failure == (if old(self).failure is None {
                    Some(e)
                } else {
                    old(self).failure
                }),
                _ => final(self).failure == old(self).failure,
            }),
    {
        let (broadcast, forward) = match msg {
            Message::Fatal(e) => {
                if self.failure.is_none() {
                    self.failure = Some(e);
                }
                (true, None)
            },
            Message::Stabilized => (true, None),
            other => (cancelled, Some(other)),
        };
        if broadcast {
            self.draining = true;
        }
        (broadcast, forward)
    }
}

/// What a worker does at the top of one loop iteration.
#[derive(Clone, Copy, Debug, PartialEq, Eq, Structural)]
pub enum LoopGate {
    Halt,
    FatalStop,
    Run(u64),
}

/// The top-of-loop decision on exact integers: a pending stop order halts the loop;
/// an exhausted token is a fatal stop; otherwise the worker sleeps the
/// token's current delay and performs one unit of work.
pub open spec fn gate_spec(stop_order: bool, i: int, limit: int, step: int) -> LoopGate {
    if stop_order {
        LoopGate::Halt
    } else if i >= limit {
        LoopGate::FatalStop
    } else {
        LoopGate::Run(delay_of(i, step) as u64)
    }
}

/// The check every worker makes at the top of every loop iteration.
pub fn loop_gate(stop_order: bool, tkn: &RegulationToken) -> (g: LoopGate)
    requires
        (tkn.i + 1) * tkn.delay_step <= u64::MAX,
    ensures
        g == gate_spec(stop_order, tkn.i as int, tkn.limit as int, tkn.delay_step as int),
{
    if stop_order {
        LoopGate::Halt
    } else if tkn.is_stopped() {
        LoopGate::FatalStop
    } else {
        LoopGate::Run(tkn.delay())
    }
}

/// Law: an observed cancellation makes the coordinator order both workers to
/// stop, and a worker with a pending stop order halts at the top of its next
/// iteration, whatever message arrived and whatever state its token is in.
pub proof fn lemma_cancellation_halts(msg: &Message, i: int, limit: int, step: int)
    ensures
        broadcast_spec(msg, true),
        gate_spec(true, i, limit, step) is Halt,
{
}

/// Run configuration, consumed at process start: how many ratings an item
/// needs to enter the catalog, how many consecutive failures a worker
/// survives, the per-worker base delays in milliseconds, and how long the
/// item worker sleeps when raters prevail.
#[derive(Clone, Copy, Debug)]
pub struct Config {
    pub limit: u32,
    pub attempts: u32,
    pub u_delay: u32,
    pub g_delay: u32,
    pub prevail_for: u32,
}

impl Config {
    pub fn new(limit: u32, attempts: u32, u_delay: u32, g_delay: u32, prevail_for: u32) -> (c:
        Config)
        ensures
            c.limit == limit,
            c.attempts == attempts,
            c.u_delay == u_delay,
            c.g_delay == g_delay,
            c.prevail_for == prevail_for,
    {
        Config { limit, attempts, u_delay, g_delay, prevail_for }
    }
}

/// The report rule: the catalog is published only once every item is stable;
/// while any item is still unstable the report is empty.
pub fn report_games(unstable_games: u32, games: Vec<Game>) -> (r: Vec<Game>)
    ensures
        unstable_games == 0 ==> r == games,
        unstable_games != 0 ==> r@.len() == 0,
{
    if unstable_games == 0 {
        games
    } else {
        Vec::new()
    }
}

/// Re-destabilizing aged raters is a documented extension that is not built
/// yet; reviewing is deliberately a no-op.
pub fn review_users() -> (r: Result<(), EngineError>)
    ensures
        r is Ok,
{
    Ok(())
}

} // verus!
