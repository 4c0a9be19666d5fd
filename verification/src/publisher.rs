//! The periodic publisher: once per fixed interval it builds one message
//! addressed to a fixed destination, carrying the current epoch time in
//! seconds rendered in decimal, and submits it; a failed send is logged and
//! swallowed, never retried, and never stops the loop.

use vstd::arithmetic::div_mod::lemma_div_is_ordered;
use vstd::arithmetic::div_mod::lemma_fundamental_div_mod;
use vstd::arithmetic::mul::lemma_mul_inequality;
use vstd::prelude::*;

use crate::codec::spec_decimal;
use crate::codec::u64_to_decimal;
use crate::message::BuildError;
use crate::message::Message;
use crate::message::PayloadFormat;
use crate::message::build_publish_message;

verus! {

/// Fixed configuration of the publish loop: where messages go, how often one
/// is sent, and the time-to-live stamped on each.
pub struct PublisherConfig {
    pub destination: String,
    pub interval_ms: u64,
    pub ttl_ms: u32,
}

impl PublisherConfig {
    /// A runnable configuration: a non-empty destination and a positive
    /// interval.
    pub open spec fn wf(&self) -> bool {
        &&& self.destination@.len() > 0
        &&& self.interval_ms > 0
    }
}

/// The epoch time, in seconds, at which the `i`-th send (counting from 0)
/// of a run started at `start_secs` takes place: one full interval elapses
/// before each send.
pub open spec fn tick_time_secs(start_secs: u64, interval_ms: u64, i: nat) -> nat {
    (start_secs + ((i + 1) * interval_ms) / 1000) as nat
}

/// Builds the message for one tick of the publish loop: addressed to the
/// configured destination, carrying the current epoch seconds in decimal as
/// a text payload, stamped with the configured time-to-live. Fails exactly
/// when the destination is empty.
pub fn tick_message(cfg: &PublisherConfig, now_secs: u64) -> (r: Result<Message, BuildError>)
    ensures
        r is Ok <==> cfg.destination@.len() > 0,
        r is Err ==> r->Err_0 == BuildError::EmptyDestination,
        r is Ok ==> ({
            let m = r->Ok_0;
            &&& m.destination@ == cfg.destination@
            &&& m.ttl_ms == Some(cfg.ttl_ms)
            &&& m.format is Text
            &&& m.payload is Some
            &&& m.payload.unwrap()@ == spec_decimal(now_secs as nat)
        }),
{
    let payload = u64_to_decimal(now_secs);
    build_publish_message(cfg.destination.clone(), cfg.ttl_ms, payload, PayloadFormat::Text)
}

/// What a simulated run of the publish loop did: every message whose send
/// was attempted, in order, and whether the transport delivered each.
pub struct RunLog {
    pub attempted: Vec<Message>,
    pub delivered: Vec<bool>,
}

/// Runs the publish loop for `duration_ms` milliseconds of simulated time
/// against a simulated transport: the `i`-th send succeeds exactly when
/// `send_ok[i]` is true.
///
/// Law: a run of `duration_ms` with interval `interval_ms` attempts exactly
/// `duration_ms / interval_ms` sends — a failed send is recorded and
/// swallowed, never retried, and never shortens the run — and the `i`-th
/// message carries the epoch seconds of its tick.
pub fn simulate_run(
    cfg: &PublisherConfig,
    start_secs: u64,
    duration_ms: u64,
    send_ok: &Vec<bool>,
) -> (log: RunLog)
    requires
        cfg.wf(),
        send_ok@.len() >= duration_ms as nat / cfg.interval_ms as nat,
        start_secs + duration_ms as nat / 1000 <= u64::MAX,
    ensures
        log.attempted@.len() == duration_ms as nat / cfg.interval_ms as nat,
        log.delivered@.len() == log.attempted@.len(),
        forall|i: int|
            0 <= i < log.delivered@.len() ==> #[trigger] log.delivered@[i] == send_ok@[i],
        forall|i: int|
            0 <= i < log.attempted@.len() ==> ({
                let m = #[trigger] log.attempted@[i];
                &&& m.destination@ == cfg.destination@
                &&& m.ttl_ms == Some(cfg.ttl_ms)
                &&& m.format is Text
                &&& m.payload is Some
                &&& m.payload.unwrap()@ == spec_decimal(
                    tick_time_secs(start_secs, cfg.interval_ms, i as nat),
                )
            }),
{
    let ticks = duration_ms / cfg.interval_ms;
    proof {
        lemma_fundamental_div_mod(duration_ms as int, cfg.interval_ms as int);
    }
    let mut attempted: Vec<Message> = Vec::new();
    let mut delivered: Vec<bool> = Vec::new();
    let outcomes_len = send_ok.len();
    let mut i: usize = 0;
    while (i as u64) < ticks
        invariant
            send_ok@.len() == outcomes_len,
            cfg.wf(),
            ticks == duration_ms as nat / cfg.interval_ms as nat,
            ticks * cfg.interval_ms <= duration_ms,
            start_secs + duration_ms as nat / 1000 <= u64::MAX,
            send_ok@.len() >= ticks,
            i <= ticks,
            attempted@.len() == i,
            delivered@.len() == i,
            forall|k: int| 0 <= k < delivered@.len() ==> #[trigger] delivered@[k] == send_ok@[k],
            forall|k: int|
                0 <= k < attempted@.len() ==> ({
                    let m = #[trigger] attempted@[k];
                    &&& m.destination@ == cfg.destination@
                    &&& m.ttl_ms == Some(cfg.ttl_ms)
                    &&& m.format is Text
                    &&& m.payload is Some
                    &&& m.payload.unwrap()@ == spec_decimal(
                        tick_time_secs(start_secs, cfg.interval_ms, k as nat),
                    )
                }),
        decreases ticks - i,
    {
        proof {
            lemma_mul_inequality((i + 1) as int, ticks as int, cfg.interval_ms as int);
            lemma_div_is_ordered(
                ((i + 1) as int * cfg.interval_ms as int),
                duration_ms as int,
                1000,
            );
        }
        let elapsed_ms = (i as u64 + 1) * cfg.interval_ms;
        let now_secs = start_secs + elapsed_ms / 1000;
        let message = match tick_message(cfg, now_secs) {
            Ok(m) => m,
            Err(_) => {
                proof {
                    assert(false);
                }
                return RunLog { attempted, delivered };
            },
        };
        // The simulated transport accepts or refuses the send; either way the
        // attempt is recorded and the loop goes on to the next tick.
        let sent = send_ok[i];
        attempted.push(message);
        delivered.push(sent);
        i = i + 1;
    }
    RunLog { attempted, delivered }
}

} // verus!
