//! The trace engine: owns the candidate list and the step log, advances one
//! query attempt at a time, classifies each outcome, replaces the candidate
//! list on a referral, and decides success or terminal failure.
//!
//! The engine does no I/O itself. A driver alternates two calls: `begin_step`
//! pops the next candidate and says which address to query (or that the
//! attempt fails at once for want of one), and `complete_step` takes the
//! attempt's outcome and elapsed time and performs the whole classification
//! and transition.

use vstd::prelude::*;

use crate::addr::NetAddress;
use crate::authority::{dns_response_to_ns, referral_matches, root_hint_addr, root_hint_name, Authority};
use crate::records::{QueryError, Response};
use crate::step::Step;

verus! {

/// The ceiling on logged steps for one trace.
pub const MAX_STEPS: usize = 20;

/// Terminal failure of a trace, carrying the full step log accumulated so
/// far.
#[derive(Debug)]
pub enum Error {
    /// The candidate list was exhausted without an answer.
    DeadEnd(Vec<Step>),
    /// The step ceiling was reached without an answer.
    TooManySteps(Vec<Step>),
}

/// What one completed attempt decides: the trace goes on with another query,
/// is done with the full log, or has failed terminally.
#[derive(Debug)]
pub enum TraceOutcome {
    Running,
    Done(Vec<Step>),
    Failed(Error),
}

/// Holds of an attempt's outcome that ends the trace successfully: a response
/// with code "no error" and at least one answer record.
pub open spec fn is_success(result: Result<Response, QueryError>) -> bool {
    &&& result is Ok
    &&& result->Ok_0.code == 0
    &&& result->Ok_0.answers@.len() > 0
}

/// Holds of an attempt's outcome that is a referral: a response with code
/// "no error", no answer record, and at least one name-server record.
pub open spec fn is_referral(result: Result<Response, QueryError>) -> bool {
    &&& result is Ok
    &&& result->Ok_0.code == 0
    &&& result->Ok_0.answers@.len() == 0
    &&& result->Ok_0.name_servers@.len() > 0
}

/// The error recorded for an authority with no known address: such an attempt
/// fails immediately, without network traffic.
pub fn no_address_error() -> (e: QueryError)
    ensures
        e.message@ == "no addr for authority"@,
{
    QueryError { message: String::from_str("no addr for authority") }
}

/// The trace engine state: the target name, the optional progress hook, the
/// remaining candidates, the step log, and the authority of the in-flight
/// query attempt.
pub struct DnsTrace<F> where F: Fn(&Step) {
    pub name: String,
    pub progress_fn: Option<F>,
    pub ns: Vec<Authority>,
    pub steps: Vec<Step>,
    pub current: Option<Authority>,
}

impl<F> DnsTrace<F> where F: Fn(&Step) {
    /// A trace in progress is well formed: its target name is not empty, it
    /// has step budget left, and every candidate is well formed.
    pub open spec fn wf(self) -> bool {
        &&& self.name@.len() > 0
        &&& self.steps@.len() < MAX_STEPS
        &&& forall|i: int| 0 <= i < self.ns@.len() ==> (#[trigger] self.ns@[i]).wf()
        &&& (self.current is Some ==> self.current->Some_0.wf())
    }

    /// The progress hook, when present, accepts any step.
    pub open spec fn hook_ok(self) -> bool {
        match self.progress_fn {
            Some(f) => forall|s: &Step| #[trigger] call_requires(f, (s,)),
            None => true,
        }
    }

    /// Pops the next candidate — the last of the list — and records it as the
    /// authority of the in-flight attempt. Returns the candidate's address:
    /// the driver queries it for the target name, or, when none is known,
    /// completes the attempt at once with `no_address_error` and no network
    /// call.
    pub fn begin_step(&mut self) -> (addr: Option<NetAddress>)
        requires
            old(self).wf(),
            old(self).current is None,
            old(self).ns@.len() > 0,
        ensures
            final(self).wf(),
            final(self).name == old(self).name,
            final(self).progress_fn == old(self).progress_fn,
            final(self).steps == old(self).steps,
            final(self).ns@ == old(self).ns@.drop_last(),
            final(self).current == Some(old(self).ns@.last()),
            addr == old(self).ns@.last().addr,
    {
        let a = self.ns.pop().unwrap();
        let addr = a.addr;
        self.current = Some(a);
        addr
    }

    /// Completes the in-flight attempt with its outcome and elapsed time:
    /// builds the step, classifies the outcome, wholly replaces the candidate
    /// list on a referral (and leaves it untouched otherwise), invokes the
    /// progress hook, appends the step to the log, and decides whether the
    /// trace is done, has failed, or goes on.
    ///
    /// On success the full ordered log is returned; both failures carry it
    /// too. A dead end is reported exactly when the attempt found no answer
    /// and the candidate list is empty afterwards; the step ceiling is
    /// reported exactly when the attempt found no answer, candidates remain,
    /// and the log has reached `MAX_STEPS` entries.
    pub fn complete_step(&mut self, result: Result<Response, QueryError>, elapsed: u64) -> (out:
        TraceOutcome)
        requires
            old(self).wf(),
            old(self).hook_ok(),
            old(self).current is Some,
            result is Ok ==> result->Ok_0.wf(),
        ensures
            ({
                let step = Step {
                    source: old(self).current->Some_0,
                    result: result,
                    elapsed: elapsed,
                };
                let log = old(self).steps@.push(step);
                match out {
                    TraceOutcome::Running => {
                        &&& !is_success(result)
                        &&& final(self).ns@.len() > 0
                        &&& log.len() < MAX_STEPS
                        &&& final(self).steps@ == log
                    },
                    TraceOutcome::Done(steps) => {
                        &&& is_success(result)
                        &&& steps@ == log
                        &&& final(self).steps@.len() == 0
                    },
                    TraceOutcome::Failed(err) => match err {
                        Error::DeadEnd(steps) => {
                            &&& !is_success(result)
                            &&& final(self).ns@.len() == 0
                            &&& steps@ == log
                            &&& final(self).steps@.len() == 0
                        },
                        Error::TooManySteps(steps) => {
                            &&& !is_success(result)
                            &&& final(self).ns@.len() > 0
                            &&& log.len() == MAX_STEPS
                            &&& steps@ == log
                            &&& final(self).steps@.len() == 0
                        },
                    },
                }
            }),
            out is Done <==> is_success(result),
            out is Done ==> out->Done_0@.len() > 0 && is_success(out->Done_0@.last().result),
            out is Done ==> out->Done_0@.len() <= MAX_STEPS,
            (out is Failed && out->Failed_0 is DeadEnd) ==> out->Failed_0->DeadEnd_0@.len()
                <= MAX_STEPS,
            (out is Failed && out->Failed_0 is DeadEnd) <==> (!is_success(result)
                && final(self).ns@.len() == 0),
            (out is Failed && out->Failed_0 is TooManySteps) <==> (!is_success(result)
                && final(self).ns@.len() > 0 && old(self).steps@.len() + 1 == MAX_STEPS),
            out is Running <==> (!is_success(result) && final(self).ns@.len() > 0
                && old(self).steps@.len() + 1 < MAX_STEPS),
            is_referral(result) ==> referral_matches(final(self).ns@, result->Ok_0),
            !is_referral(result) ==> final(self).ns@ == old(self).ns@,
            final(self).name == old(self).name,
            final(self).progress_fn == old(self).progress_fn,
            final(self).current is None,
            forall|i: int| 0 <= i < final(self).ns@.len() ==> (#[trigger] final(self).ns@[i]).wf(),
            out is Running ==> final(self).wf() && final(self).hook_ok(),
    {
        let cur = self.current.take().unwrap();

        let mut done = false;
        match &result {
            Ok(res) => {
                if res.code == 0 {
                    if res.answers.len() > 0 {
                        done = true;
                    } else if res.name_servers.len() > 0 {
                        self.ns = dns_response_to_ns(res);
                    }
                }
            },
            Err(_) => {},
        }

        let step = Step { source: cur, result, elapsed };

        let hook = self.progress_fn.take();
        match hook {
            Some(f) => {
                f(&step);
                self.progress_fn = Some(f);
            },
            None => {},
        }

        self.steps.push(step);

        if done {
            let mut taken: Vec<Step> = Vec::new();
            core::mem::swap(&mut taken, &mut self.steps);
            TraceOutcome::Done(taken)
        } else if self.ns.is_empty() {
            let mut taken: Vec<Step> = Vec::new();
            core::mem::swap(&mut taken, &mut self.steps);
            TraceOutcome::Failed(Error::DeadEnd(taken))
        } else if self.steps.len() >= MAX_STEPS {
            let mut taken: Vec<Step> = Vec::new();
            core::mem::swap(&mut taken, &mut self.steps);
            TraceOutcome::Failed(Error::TooManySteps(taken))
        } else {
            TraceOutcome::Running
        }
    }
}

/// Creates a trace for the target name `qname`, with an optional progress
/// hook, seeded with the root hints as the initial candidate list.
pub fn trace<F: Fn(&Step)>(qname: &String, progress: Option<F>) -> (t: DnsTrace<F>)
    requires
        qname@.len() > 0,
    ensures
        t.wf(),
        t.name@ == qname@,
        t.progress_fn == progress,
        t.steps@.len() == 0,
        t.current is None,
        t.ns@.len() == 10,
        forall|i: int|
            0 <= i < 10 ==> (#[trigger] t.ns@[i]).name@ == root_hint_name(i) && t.ns@[i].addr
                == Some(root_hint_addr(i)),
{
    DnsTrace {
        name: qname.clone(),
        progress_fn: progress,
        ns: Authority::root_hints(),
        steps: Vec::new(),
        current: None,
    }
}

} // verus!
