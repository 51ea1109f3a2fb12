//! The order sequencer: classifies the answers read for one outstanding
//! request, and drives a script of commands over the control channel with
//! either short-circuit or best-effort failure handling.
//!
//! The sequencer never touches the channel itself.  The caller asks for the
//! next step, writes the envelope a `Dispatch` step carries, and feeds every
//! answer it reads back in until the outstanding order settles.

use vstd::prelude::*;
use crate::messages::{
    Answer, AnswerStatus, AnswerV, Command, Envelope, cmds_view, setup_commands,
    setup_script_spec, teardown_commands, teardown_script_spec,
};
use crate::text::{concat2, decimal_rep, u64_to_decimal};

verus! {

/// How one answer settles (or fails to settle) the outstanding order.
#[derive(Clone, Copy, PartialEq, Eq, Structural, Debug)]
pub enum Outcome {
    /// A progress notification: keep reading answers for the same request.
    Pending,
    /// The proxy applied the command.
    Success,
    /// The proxy refused the command, or the channel yielded no answer.
    Failure,
    /// The answer's id does not echo the outstanding request id: the channel
    /// is no longer trustworthy and the whole run must abort.
    Fatal,
}

/// The value of an answer slot handed to the classifier.
pub open spec fn answer_slot_view(answer: Option<&Answer>) -> Option<AnswerV> {
    match answer {
        Option::None => Option::None,
        Option::Some(a) => Option::Some(a@),
    }
}

/// How the protocol classifies one read against the outstanding request id.
pub open spec fn classify_spec(request_id: Seq<char>, answer: Option<AnswerV>) -> Outcome {
    match answer {
        Option::None => Outcome::Failure,
        Option::Some(a) => if a.id != request_id {
            Outcome::Fatal
        } else {
            match a.status {
                AnswerStatus::Processing => Outcome::Pending,
                AnswerStatus::Okay => Outcome::Success,
                AnswerStatus::Error => Outcome::Failure,
            }
        },
    }
}

/// Classifies one read: no answer is a failure; a mismatched id is fatal; a
/// matching id settles by status.
pub fn classify_answer(request_id: &String, answer: Option<&Answer>) -> (r: Outcome)
    ensures
        r == classify_spec(request_id@, answer_slot_view(answer)),
{
    match answer {
        Option::None => Outcome::Failure,
        Option::Some(a) => {
            if a.id != *request_id {
                Outcome::Fatal
            } else {
                match a.status {
                    AnswerStatus::Processing => Outcome::Pending,
                    AnswerStatus::Okay => Outcome::Success,
                    AnswerStatus::Error => Outcome::Failure,
                }
            }
        },
    }
}

/// Correlation invariant: an answer is consumed as anything but a fatal
/// protocol violation only when its id echoes the outstanding request id; a
/// mismatched id always aborts, whatever the status.
pub proof fn lemma_correlation(request_id: Seq<char>, a: AnswerV)
    ensures
        classify_spec(request_id, Option::Some(a)) != Outcome::Fatal ==> a.id == request_id,
        a.id != request_id ==> classify_spec(request_id, Option::Some(a)) == Outcome::Fatal,
{
}

/// Classification by status: for an answer that echoes the request id, an
/// `Okay` always succeeds, an `Error` always fails, and a `Processing` never
/// settles the order by itself.
pub proof fn lemma_classification(request_id: Seq<char>, a: AnswerV)
    requires
        a.id == request_id,
    ensures
        a.status is Okay ==> classify_spec(request_id, Option::Some(a)) == Outcome::Success,
        a.status is Error ==> classify_spec(request_id, Option::Some(a)) == Outcome::Failure,
        a.status is Processing ==> classify_spec(request_id, Option::Some(a)) == Outcome::Pending,
{
}

/// Fresh request ids never repeat within a run: distinct serial numbers
/// yield distinct ids, so no two orders of one run ever share an id.
pub proof fn lemma_request_ids_distinct(s1: nat, s2: nat)
    requires
        s1 != s2,
    ensures
        request_id_spec(s1) != request_id_spec(s2),
{
    if request_id_spec(s1) == request_id_spec(s2) {
        reveal_strlit("ID-");
        let p = "ID-"@;
        let d1 = decimal_rep(s1);
        let d2 = decimal_rep(s2);
        assert(p + d1 == p + d2);
        assert((p + d1).len() == (p + d2).len());
        assert(d1.len() == d2.len());
        assert(d1 =~= d2) by {
            assert forall|i: int| 0 <= i < d1.len() implies d1[i] == d2[i] by {
                assert(d1[i] == (p + d1).index(i + 3));
                assert(d2[i] == (p + d2).index(i + 3));
            }
        }
        crate::text::lemma_decimal_rep_injective(s1, s2);
    }
}

/// The outcome of the read-until-terminal loop over a whole sequence of
/// reads: the first read that does not classify as `Pending` settles the
/// order; while every read is a progress notification the order stays open.
pub open spec fn order_result(request_id: Seq<char>, reads: Seq<Option<AnswerV>>) -> Outcome
    decreases reads.len(),
{
    if reads.len() == 0 {
        Outcome::Pending
    } else {
        let first = classify_spec(request_id, reads[0]);
        if first is Pending {
            order_result(request_id, reads.drop_first())
        } else {
            first
        }
    }
}

/// A read carrying an answer that echoes the request id and reports success.
pub open spec fn successful_echo(request_id: Seq<char>, read: Option<AnswerV>) -> bool {
    read matches Option::Some(a) && a.id == request_id && a.status is Okay
}

/// Correlation invariant over whole runs: however many reads an order takes,
/// it only ever succeeds on the strength of an answer that echoes the
/// request id — no sequence of reads with only mismatched or failing answers
/// can drive an order to success.
pub proof fn lemma_correlation_trace(request_id: Seq<char>, reads: Seq<Option<AnswerV>>)
    ensures
        order_result(request_id, reads) is Success ==> exists|i: int|
            0 <= i < reads.len() && successful_echo(request_id, #[trigger] reads[i]),
    decreases reads.len(),
{
    if reads.len() > 0 {
        let first = classify_spec(request_id, reads[0]);
        if first is Pending {
            lemma_correlation_trace(request_id, reads.drop_first());
            if order_result(request_id, reads) is Success {
                let rest = reads.drop_first();
                let i = choose|i: int|
                    0 <= i < rest.len() && successful_echo(request_id, #[trigger] rest[i]);
                assert(reads[i + 1] == rest[i]);
            }
        } else if first is Success {
            assert(successful_echo(request_id, reads[0]));
        }
    }
}

/// How a script treats a failed command.
#[derive(Clone, Copy, PartialEq, Eq, Structural, Debug)]
pub enum Policy {
    /// Stop at the first failure; the remaining commands are never issued.
    ShortCircuit,
    /// Issue every command; failures only mark the overall result.
    BestEffort,
}

/// What the caller must do next to advance a script.
pub enum RunnerStep {
    /// Write this envelope to the channel, then feed the answers read back
    /// into `on_answer` until the order settles.
    Dispatch(Envelope),
    /// The script is over; `true` means every command succeeded.
    Finished(bool),
}

/// The request id issued for one serial number.
pub open spec fn request_id_spec(serial: nat) -> Seq<char> {
    "ID-"@ + decimal_rep(serial)
}

/// Drives one script of commands to completion, one order at a time.
pub struct ScriptRunner {
    /// The script, issued in order.
    pub commands: Vec<Command>,
    /// How a failed command affects the rest of the script.
    pub policy: Policy,
    /// How many commands have been dispatched.
    pub next_index: usize,
    /// Whether every settled command succeeded so far.
    pub ok_so_far: bool,
    /// The request id of the outstanding order, if one is in flight.
    pub in_flight: Option<String>,
    /// The serial number of the next request id.
    pub serial: u64,
    /// Whether a correlation violation has poisoned the run.
    pub aborted: bool,
}

impl ScriptRunner {
    /// The runner's bookkeeping is consistent with its script.
    pub open spec fn wf(self) -> bool {
        &&& self.next_index <= self.commands@.len()
        &&& self.serial as int + (self.commands@.len() - self.next_index) <= u64::MAX as int
    }

    /// A further envelope may be issued: nothing is in flight, the run is not
    /// poisoned, commands remain, and either all settled commands succeeded
    /// or the script is best-effort.
    pub open spec fn may_dispatch(self) -> bool {
        &&& !self.aborted
        &&& self.in_flight is None
        &&& self.next_index < self.commands@.len()
        &&& (self.ok_so_far || self.policy is BestEffort)
    }

    /// A fresh runner over a script.
    pub fn new(commands: Vec<Command>, policy: Policy, first_serial: u64) -> (r: ScriptRunner)
        requires
            first_serial as int + commands@.len() <= u64::MAX as int,
        ensures
            r.wf(),
            r.commands == commands,
            r.policy == policy,
            r.next_index == 0,
            r.ok_so_far,
            r.in_flight is None,
            r.serial == first_serial,
            !r.aborted,
    {
        ScriptRunner {
            commands,
            policy,
            next_index: 0,
            ok_so_far: true,
            in_flight: None,
            serial: first_serial,
            aborted: false,
        }
    }

    /// The next step while no order is in flight: the next command as an
    /// envelope under a fresh id, or the script's overall result.
    pub fn next_step(&mut self) -> (r: RunnerStep)
        requires
            old(self).wf(),
            old(self).in_flight is None,
            !old(self).aborted,
        ensures
            final(self).wf(),
            final(self).commands == old(self).commands,
            final(self).policy == old(self).policy,
            final(self).ok_so_far == old(self).ok_so_far,
            !final(self).aborted,
            old(self).may_dispatch() ==> {
                &&& r matches RunnerStep::Dispatch(env)
                &&& env.id@ == request_id_spec(old(self).serial as nat)
                &&& env.command@ == cmds_view(old(self).commands@)[old(self).next_index as int]
                &&& final(self).next_index == old(self).next_index + 1
                &&& final(self).serial == old(self).serial + 1
                &&& final(self).in_flight matches Option::Some(id) && id@ == env.id@
            },
            !old(self).may_dispatch() ==> {
                &&& r matches RunnerStep::Finished(ok) && ok == old(self).ok_so_far
                &&& final(self).next_index == old(self).next_index
                &&& final(self).serial == old(self).serial
                &&& final(self).in_flight is None
            },
    {
        let can_go = match self.policy {
            Policy::ShortCircuit => self.ok_so_far,
            Policy::BestEffort => true,
        };
        if can_go && self.next_index < self.commands.len() {
            let id = concat2("ID-", u64_to_decimal(self.serial).as_str());
            let command = self.commands[self.next_index].duplicate();
            self.in_flight = Some(id.clone());
            self.next_index = self.next_index + 1;
            self.serial = self.serial + 1;
            let env = Envelope { id, command };
            proof {
                assert(env.command@ == cmds_view(old(self).commands@)[old(self).next_index as int]);
            }
            RunnerStep::Dispatch(env)
        } else {
            RunnerStep::Finished(self.ok_so_far)
        }
    }

    /// Feeds one read back while an order is in flight.  A `Pending` outcome
    /// leaves the order outstanding; `Success` and `Failure` settle it;
    /// `Fatal` poisons the runner for good.
    pub fn on_answer(&mut self, answer: Option<&Answer>) -> (r: Outcome)
        requires
            old(self).wf(),
            old(self).in_flight is Some,
            !old(self).aborted,
        ensures
            final(self).wf(),
            r == classify_spec(old(self).in_flight.unwrap()@, answer_slot_view(answer)),
            final(self).commands == old(self).commands,
            final(self).policy == old(self).policy,
            final(self).next_index == old(self).next_index,
            final(self).serial == old(self).serial,
            r is Pending ==> *final(self) == *old(self),
            r is Success ==> final(self).in_flight is None && !final(self).aborted
                && final(self).ok_so_far == old(self).ok_so_far,
            r is Failure ==> final(self).in_flight is None && !final(self).aborted
                && !final(self).ok_so_far,
            r is Fatal ==> final(self).aborted,
            final(self).ok_so_far ==> old(self).ok_so_far,
    {
        let outcome = match &self.in_flight {
            Option::Some(id) => classify_answer(id, answer),
            Option::None => Outcome::Fatal,  // unreachable: an order is in flight
        };
        match outcome {
            Outcome::Pending => {},
            Outcome::Success => {
                self.in_flight = None;
            },
            Outcome::Failure => {
                self.in_flight = None;
                self.ok_so_far = false;
            },
            Outcome::Fatal => {
                self.aborted = true;
            },
        }
        outcome
    }
}

/// The runner for the temporary-route setup script, bound to its policy:
/// the script short-circuits, so when the route is refused the backend is
/// never attached.
pub fn setup_runner(
    app_id: &str,
    hostname: &str,
    path_prefix: &str,
    address: &str,
    first_serial: u64,
) -> (r: ScriptRunner)
    requires
        first_serial as int + 2 <= u64::MAX as int,
    ensures
        r.wf(),
        r.policy is ShortCircuit,
        r.commands@.len() == 2,
        cmds_view(r.commands@) == setup_script_spec(app_id@, hostname@, path_prefix@, address@),
        r.next_index == 0,
        r.ok_so_far,
        r.in_flight is None,
        !r.aborted,
        r.serial == first_serial,
{
    let commands = setup_commands(app_id, hostname, path_prefix, address);
    ScriptRunner::new(commands, Policy::ShortCircuit, first_serial)
}

/// The runner for the teardown script, bound to its policy: removal is
/// best-effort, so both commands are attempted whatever fails.
pub fn teardown_runner(
    app_id: &str,
    hostname: &str,
    path_prefix: &str,
    address: &str,
    first_serial: u64,
) -> (r: ScriptRunner)
    requires
        first_serial as int + 2 <= u64::MAX as int,
    ensures
        r.wf(),
        r.policy is BestEffort,
        r.commands@.len() == 2,
        cmds_view(r.commands@) == teardown_script_spec(app_id@, hostname@, path_prefix@, address@),
        r.next_index == 0,
        r.ok_so_far,
        r.in_flight is None,
        !r.aborted,
        r.serial == first_serial,
{
    let commands = teardown_commands(app_id, hostname, path_prefix, address);
    ScriptRunner::new(commands, Policy::BestEffort, first_serial)
}

/// Short-circuit invariant: once a command of a short-circuit script has
/// failed, no further envelope is ever issued — `next_step` can only report
/// the script finished.  Together with the monotonicity of `ok_so_far` in
/// `on_answer`, the second command of a two-command script is never sent
/// after the first one failed.
pub proof fn lemma_short_circuit(s: ScriptRunner)
    requires
        s.policy is ShortCircuit,
        !s.ok_so_far,
    ensures
        !s.may_dispatch(),
{
}

/// Best-effort scripts attempt everything: whatever failed before, while
/// commands remain (and the run is not poisoned), the next one is issued.
pub proof fn lemma_best_effort(s: ScriptRunner)
    requires
        s.policy is BestEffort,
        !s.aborted,
        s.in_flight is None,
        s.next_index < s.commands@.len(),
    ensures
        s.may_dispatch(),
{
}

} // verus!
