//! The search supervisor: a single-flight guard and the decisions of the
//! stdout read loop.
//!
//! The supervisor owns the run state — exactly one of idle or running — and
//! the pending result retained from the stream. The loop that actually
//! spawns the worker and awaits its lines lives outside this core; between
//! any two lines it hands each line to `on_line` and obeys the outcome, and
//! on loop exit it calls `finish`. Stopping is cooperative: `stop` only
//! clears the guard, so the loop stops forwarding at its next line; the
//! worker process itself is not signalled. That is a documented limitation,
//! not a defect.

use vstd::prelude::*;

use crate::codec::{
    classify, decode_search_line, payload_after, progress_matches, progress_prefix,
    record_matches, result_prefix, yields_event, ProgressEvent, ResultRecord, SearchEvent,
};
use crate::config::{config_to_wire, config_wire, RunConfig};
use crate::errors::CoreError;
use crate::launcher::{resolution_spec, resolve_worker_path, worker_not_found_text, DeployMode};

verus! {

/// The run state of one supervisor: the single-flight guard and the result
/// retained so far from the worker's stream.
#[verifier::ext_equal]
pub struct Supervisor {
    pub running: bool,
    pub pending: Option<ResultRecord>,
}

/// A start may claim the guard exactly when no run is active.
pub open spec fn start_allowed(s: Supervisor) -> bool {
    !s.running
}

/// The state after a successful claim of the guard.
pub open spec fn claimed(s: Supervisor) -> Supervisor {
    Supervisor { running: true, ..s }
}

/// The state after a stop request: the guard is cleared, nothing else
/// changes.
pub open spec fn stopped(s: Supervisor) -> Supervisor {
    Supervisor { running: false, ..s }
}

/// The state after the read loop has exited and its result was taken: idle,
/// with nothing pending.
pub open spec fn finished(s: Supervisor) -> Supervisor {
    Supervisor { running: false, pending: None }
}

/// The payloads of the lines that yield progress events, in stream order.
pub open spec fn progress_payloads(ls: Seq<Seq<u8>>) -> Seq<Seq<u8>>
    decreases ls.len(),
{
    if ls.len() == 0 {
        Seq::empty()
    } else {
        let rest = progress_payloads(ls.drop_last());
        let l = ls.last();
        if classify(l) is ProgressLine && yields_event(l) {
            rest.push(payload_after(l, progress_prefix()))
        } else {
            rest
        }
    }
}

/// The payload of the last line that yields a result record; `None` when no
/// line does.
pub open spec fn last_result_payload(ls: Seq<Seq<u8>>) -> Option<Seq<u8>>
    decreases ls.len(),
{
    if ls.len() == 0 {
        None
    } else if classify(ls.last()) is ResultLine && yields_event(ls.last()) {
        Some(payload_after(ls.last(), result_prefix()))
    } else {
        last_result_payload(ls.drop_last())
    }
}

/// What the read loop must do after handing one line to the supervisor.
#[derive(Debug, PartialEq, Eq)]
pub enum StepOutcome {
    /// The guard was observed cleared: consume no further line and return.
    Stopped,
    /// Forward this progress event out of band, in stream order.
    Emit(ProgressEvent),
    /// Nothing to forward; keep reading.
    NoEmit,
}

impl Supervisor {
    /// A fresh supervisor: idle, nothing pending.
    pub fn new() -> (s: Supervisor)
        ensures
            !s.running,
            s.pending is None,
    {
        Supervisor { running: false, pending: None }
    }

    /// Claims the single-flight guard. Fails with `AlreadyRunning`, changing
    /// nothing, when a run is already active.
    pub fn try_start(&mut self) -> (r: Result<(), CoreError>)
        ensures
            old(self).running ==> (r matches Err(CoreError::AlreadyRunning) && *final(self)
                == *old(self)),
            !old(self).running ==> r is Ok && *final(self) == claimed(*old(self)),
    {
        if self.running {
            Err(CoreError::AlreadyRunning)
        } else {
            self.running = true;
            Ok(())
        }
    }

    /// Requests cooperative cancellation: clears the guard unconditionally
    /// and touches nothing else. Idempotent; never an error.
    pub fn stop(&mut self)
        ensures
            *final(self) == stopped(*old(self)),
    {
        self.running = false;
    }

    /// Opens a search run: claims the single-flight guard, resolves the
    /// worker's location, and serializes the configuration to its wire
    /// form. On success the caller spawns the worker at the returned path
    /// with the returned bytes as its one `--config` argument and drives
    /// `on_line`. A start while a run is active is rejected and changes
    /// nothing; a failed resolution releases the guard again, so no failure
    /// of this call can leave the system locked.
    pub fn begin(
        &mut self,
        config: &RunConfig,
        mode: DeployMode,
        candidates: &Vec<Vec<u8>>,
        exists: &Vec<bool>,
    ) -> (r: Result<(Vec<u8>, Vec<u8>), CoreError>)
        requires
            candidates@.len() == exists@.len(),
        ensures
            old(self).running ==> (r matches Err(CoreError::AlreadyRunning) && *final(self)
                == *old(self)),
            !old(self).running ==> final(self).pending == old(self).pending,
            !old(self).running && resolution_spec(mode, candidates.deep_view(), exists@) is Some
                ==> (r matches Ok(pw) && Some(pw.0@) == resolution_spec(
                mode,
                candidates.deep_view(),
                exists@,
            ) && pw.1@ == config_wire(*config) && final(self).running),
            !old(self).running && resolution_spec(mode, candidates.deep_view(), exists@) is None
                ==> (r matches Err(CoreError::WorkerNotFound { message }) && message@
                == worker_not_found_text() && !final(self).running),
    {
        match self.try_start() {
            Err(e) => {
                return Err(e);
            },
            Ok(()) => {},
        }
        match resolve_worker_path(mode, candidates, exists) {
            Ok(path) => {
                let wire = config_to_wire(config);
                Ok((path, wire))
            },
            Err(e) => {
                self.stop();
                Err(e)
            },
        }
    }

    /// Handles one line of the worker's stdout. When the guard has been
    /// cleared the line is not consumed and the loop must return; otherwise
    /// the line is decoded, a progress event is handed back for immediate
    /// forwarding, and a result record is retained as the pending return
    /// value — last one wins.
    pub fn on_line(&mut self, line: &[u8]) -> (r: StepOutcome)
        ensures
            !old(self).running ==> r is Stopped && *final(self) == *old(self),
            old(self).running ==> final(self).running,
            old(self).running && !yields_event(line@) ==> r is NoEmit && *final(self) == *old(
                self,
            ),
            old(self).running && classify(line@) is ProgressLine && yields_event(line@) ==> (
            r matches StepOutcome::Emit(p) && progress_matches(
                p,
                payload_after(line@, progress_prefix()),
            )) && final(self).pending == old(self).pending,
            old(self).running && classify(line@) is ResultLine && yields_event(line@) ==> r
                is NoEmit && (final(self).pending matches Some(rec) && record_matches(
                rec,
                payload_after(line@, result_prefix()),
            )),
    {
        if !self.running {
            return StepOutcome::Stopped;
        }
        match decode_search_line(line) {
            Some(SearchEvent::Progress(p)) => StepOutcome::Emit(p),
            Some(SearchEvent::Found(rec)) => {
                self.pending = Some(rec);
                StepOutcome::NoEmit
            },
            None => StepOutcome::NoEmit,
        }
    }

    /// Consumes a whole recorded stream, as the read loop does when no stop
    /// arrives: every line is handed to `on_line` in order. The progress
    /// events come back in the exact order their lines appeared in the
    /// stream — no reordering, no batching — and the last result line wins.
    pub fn consume_stream(&mut self, lines: &Vec<Vec<u8>>) -> (emitted: Vec<ProgressEvent>)
        requires
            old(self).running,
        ensures
            final(self).running,
            emitted@.len() == progress_payloads(lines.deep_view()).len(),
            forall|k: int|
                0 <= k < emitted@.len() ==> progress_matches(
                    #[trigger] emitted@[k],
                    progress_payloads(lines.deep_view())[k],
                ),
            match last_result_payload(lines.deep_view()) {
                Some(pl) => final(self).pending matches Some(rec) && record_matches(rec, pl),
                None => final(self).pending == old(self).pending,
            },
    {
        let ghost ls = lines.deep_view();
        proof {
            assert(ls.subrange(0, 0) =~= Seq::<Seq<u8>>::empty());
        }
        let mut emitted: Vec<ProgressEvent> = Vec::new();
        let mut i: usize = 0;
        while i < lines.len()
            invariant
                0 <= i <= ls.len(),
                ls == lines.deep_view(),
                self.running,
                emitted@.len() == progress_payloads(ls.subrange(0, i as int)).len(),
                forall|k: int|
                    0 <= k < emitted@.len() ==> progress_matches(
                        #[trigger] emitted@[k],
                        progress_payloads(ls.subrange(0, i as int))[k],
                    ),
                match last_result_payload(ls.subrange(0, i as int)) {
                    Some(pl) => self.pending matches Some(rec) && record_matches(rec, pl),
                    None => self.pending == old(self).pending,
                },
            decreases ls.len() - i,
        {
            proof {
                assert(lines@[i as int]@ =~= ls[i as int]);
                assert(ls.subrange(0, i + 1 as int).drop_last() =~= ls.subrange(0, i as int));
                assert(ls.subrange(0, i + 1 as int).last() == ls[i as int]);
            }
            match self.on_line(lines[i].as_slice()) {
                StepOutcome::Stopped => {
                    // The guard is held throughout, so the loop never
                    // observes it cleared.
                    proof {
                        assert(false);
                    }
                },
                StepOutcome::Emit(p) => {
                    emitted.push(p);
                },
                StepOutcome::NoEmit => {},
            }
            i += 1;
        }
        proof {
            assert(ls.subrange(0, ls.len() as int) =~= ls);
        }
        emitted
    }

    /// Marks the spawn path as failed: the guard is released even on this
    /// path, so a failed spawn can never leave the system locked, and the
    /// OS error text is wrapped for the caller.
    pub fn spawn_failed(&mut self, detail: Vec<u8>) -> (e: CoreError)
        ensures
            *final(self) == stopped(*old(self)),
            e == (CoreError::SpawnFailed { detail: detail }),
    {
        self.running = false;
        CoreError::SpawnFailed { detail }
    }

    /// Ends a run after the read loop has exited, for whatever reason: the
    /// guard is cleared unconditionally and the retained result — `None`
    /// when no result line arrived before stream end or cancellation — is
    /// handed to the caller.
    pub fn finish(&mut self) -> (r: Option<ResultRecord>)
        ensures
            *final(self) == finished(*old(self)),
            r == old(self).pending,
    {
        self.running = false;
        self.pending.take()
    }
}

/// Start is single-flight: claiming the guard succeeds exactly on an idle
/// supervisor, a second start without an intervening stop or completion
/// finds the guard held and is rejected, and both completion and stop clear
/// the guard, so it is never left set once the claiming call has finished.
pub proof fn lemma_single_flight(s: Supervisor)
    ensures
        start_allowed(s) ==> !start_allowed(claimed(s)),
        !start_allowed(claimed(s)),
        start_allowed(finished(claimed(s))),
        start_allowed(stopped(claimed(s))),
{
}

/// Stopping between two lines halts the run: the guard is cleared, so the
/// read loop's next `on_line` reports `Stopped` and consumes nothing
/// further; a run stopped before any result line arrived still has nothing
/// pending, so its `finish` returns `None`; and the guard is immediately
/// free for a subsequent start.
pub proof fn lemma_stop_halts_run(s: Supervisor)
    ensures
        !stopped(s).running,
        stopped(s).pending == s.pending,
        start_allowed(stopped(s)),
{
}

/// Stop is idempotent and a no-op on an idle supervisor: it never errs, and
/// stopping an already idle supervisor changes nothing.
pub proof fn lemma_stop_idempotent(s: Supervisor)
    ensures
        !s.running ==> stopped(s) == s,
        stopped(stopped(s)) == stopped(s),
{
    assert(stopped(stopped(s)) =~= stopped(s));
    if !s.running {
        assert(stopped(s) =~= s);
    }
}

} // verus!
