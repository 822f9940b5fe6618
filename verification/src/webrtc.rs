//! The browser's offer.
//!
//! The agent is built before anything else, so that a bad graph creates no peer.
//! Then a media socket is bound and the offer accepted, both outside; the flow
//! here says what each outcome leads to.

use crate::brain::DeclarativeBrain;
use crate::engine::EngineV;
use crate::events::{taken, EventRegistry};
use crate::json::{Json, JsonMap};
use crate::server::{build_agent, call_agent, plain_text, text_reply, Reply, ReplyV};
use crate::text::{decimal, decimal_int, decimal_int_text, join2};
use vstd::prelude::*;

verus! {

/// The sample rate of the media transport.
pub const WEBRTC_CARRIER_RATE: u32 = 16_000;

/// The browser's offer.
#[derive(Debug)]
pub struct OfferRequest {
    /// The session description, with its candidates.
    pub sdp: String,
}

/// The answer to an offer.
#[derive(Debug)]
pub struct OfferResponse {
    /// The session description of this side.
    pub sdp: String,
    /// The id by which the browser subscribes to the call's events.
    pub pc_id: String,
}

/// The view of an [`OfferResponse`].
#[verifier::ext_equal]
pub struct OfferResponseV {
    pub sdp: Seq<char>,
    pub pc_id: Seq<char>,
}

impl View for OfferResponse {
    type V = OfferResponseV;

    open spec fn view(&self) -> OfferResponseV {
        OfferResponseV { sdp: self.sdp@, pc_id: self.pc_id@ }
    }
}

/// The id of a call.
pub open spec fn pc_id_of(run_id: i64) -> Seq<char> {
    "pc-"@ + decimal_int(run_id as int)
}

/// The id of a call.
pub fn pc_id(run_id: i64) -> (r: String)
    ensures
        r@ == pc_id_of(run_id),
{
    join2("pc-", decimal_int_text(run_id).as_str())
}

// ── Call numbers ──────────────────────────────────────────────────────────

/// The number after `n`, starting over past the largest.
pub open spec fn number_after(n: u64) -> u64 {
    if n == u64::MAX {
        0
    } else {
        (n + 1) as u64
    }
}

/// A number as the id of a run: itself for as long as it fits, and past that the
/// negative number that it wraps to.
pub open spec fn run_id_of(n: u64) -> i64 {
    if n <= i64::MAX {
        n as i64
    } else {
        (n - 0x1_0000_0000_0000_0000) as i64
    }
}

/// The source of call numbers.
#[derive(Debug)]
pub struct CallNumbers {
    next: u64,
}

impl CallNumbers {
    pub closed spec fn upcoming(&self) -> u64 {
        self.next
    }

    /// Numbers from one on.
    pub fn new() -> (r: CallNumbers)
        ensures
            r.upcoming() == 1,
    {
        CallNumbers { next: 1 }
    }

    /// Hands out the next number.
    pub fn take(&mut self) -> (r: i64)
        ensures
            final(self).upcoming() == number_after(old(self).upcoming()),
            r == run_id_of(old(self).upcoming()),
    {
        let n: u64 = self.next;
        self.next = if n == u64::MAX {
            0
        } else {
            n + 1
        };
        if n <= 0x7fff_ffff_ffff_ffff {
            n as i64
        } else {
            ((n as i128) - 0x1_0000_0000_0000_0000) as i64
        }
    }
}

// ── The flow of an offer ──────────────────────────────────────────────────

/// How far an offer has come.
#[derive(Debug, Clone, Copy, PartialEq, Eq, Structural)]
pub enum OfferStage {
    /// The media socket is being bound.
    Binding,
    /// The offer is being accepted.
    Accepting,
    /// The offer has been answered or refused.
    Settled,
}

/// The outcome of what the flow asked for.
#[derive(Debug)]
pub enum OfferEvent<R> {
    /// The media socket is bound.
    Bound,
    /// It could not be bound.
    BindFailed,
    /// The offer was accepted, with this answer. `receiver` is the receiving half
    /// of the channel for the call's events.
    Accepted { sdp: String, receiver: R },
    /// The offer was rejected, for this reason.
    Rejected { reason: String },
}

/// What is to be done next.
#[derive(Debug)]
pub enum OfferAction {
    /// Accept the offer on the bound socket.
    Accept,
    /// Answer with a refusal.
    Refuse(Reply),
    /// Start the call, and answer.
    Run(OfferResponse),
    /// The event does not belong to this stage.
    Unexpected,
}

/// The view of an [`OfferAction`].
#[verifier::ext_equal]
pub enum OfferActionV {
    Accept,
    Refuse(ReplyV),
    Run(OfferResponseV),
    Unexpected,
}

impl View for OfferAction {
    type V = OfferActionV;

    open spec fn view(&self) -> OfferActionV {
        match self {
            OfferAction::Accept => OfferActionV::Accept,
            OfferAction::Refuse(r) => OfferActionV::Refuse(r@),
            OfferAction::Run(r) => OfferActionV::Run(r@),
            OfferAction::Unexpected => OfferActionV::Unexpected,
        }
    }
}

/// An outcome that completes an offer: it was accepted while it was due to be.
pub open spec fn completes<R>(stage: OfferStage, event: OfferEvent<R>) -> bool {
    stage == OfferStage::Accepting && event is Accepted
}

/// The stage after an outcome.
pub open spec fn stage_after<R>(stage: OfferStage, event: OfferEvent<R>) -> OfferStage {
    match (stage, event) {
        (OfferStage::Binding, OfferEvent::Bound) => OfferStage::Accepting,
        (OfferStage::Binding, OfferEvent::BindFailed) => OfferStage::Settled,
        (OfferStage::Accepting, OfferEvent::Accepted { .. }) => OfferStage::Settled,
        (OfferStage::Accepting, OfferEvent::Rejected { .. }) => OfferStage::Settled,
        _ => stage,
    }
}

/// The answer to an accepted offer: it names the call by the next number.
pub open spec fn answer_to(sdp: Seq<char>, upcoming: u64) -> OfferResponseV {
    OfferResponseV { sdp, pc_id: pc_id_of(run_id_of(upcoming)) }
}

/// What an outcome leads to, where `upcoming` is the next call number.
pub open spec fn action_after<R>(
    stage: OfferStage,
    event: OfferEvent<R>,
    upcoming: u64,
) -> OfferActionV {
    match (stage, event) {
        (OfferStage::Binding, OfferEvent::Bound) => OfferActionV::Accept,
        (OfferStage::Binding, OfferEvent::BindFailed) => OfferActionV::Refuse(
            text_reply(500, "failed to bind a media socket"@),
        ),
        (OfferStage::Accepting, OfferEvent::Accepted { sdp, .. }) => OfferActionV::Run(
            answer_to(sdp@, upcoming),
        ),
        (OfferStage::Accepting, OfferEvent::Rejected { reason }) => OfferActionV::Refuse(
            text_reply(422, reason@),
        ),
        _ => OfferActionV::Unexpected,
    }
}

/// The next call number after an outcome: only a completed offer takes one.
pub open spec fn upcoming_after<R>(
    stage: OfferStage,
    event: OfferEvent<R>,
    upcoming: u64,
) -> u64 {
    if completes(stage, event) {
        number_after(upcoming)
    } else {
        upcoming
    }
}

/// The channels of the running calls after an outcome: only a completed offer adds
/// one, under the id that its answer names.
pub open spec fn calls_after<R>(
    stage: OfferStage,
    event: OfferEvent<R>,
    upcoming: u64,
    calls: Map<Seq<char>, Option<R>>,
) -> Map<Seq<char>, Option<R>> {
    if completes(stage, event) {
        calls.insert(pc_id_of(run_id_of(upcoming)), Some(event->receiver))
    } else {
        calls
    }
}

/// An offer on its way, with the agent that will take the call.
pub struct OfferFlow {
    brain: DeclarativeBrain,
    stage: OfferStage,
    /// The run, once the offer was accepted.
    run_id: Option<i64>,
}

/// A flow or a refusal agrees with its model.
pub open spec fn flow_result(r: Result<OfferFlow, Reply>, v: Result<EngineV, ReplyV>) -> bool {
    match (r, v) {
        (Ok(a), Ok(b)) => {
            &&& a.agent() == b
            &&& a.wf()
            &&& a.stage() == OfferStage::Binding
            &&& a.run() is None
        },
        (Err(a), Err(b)) => a@ == b,
        _ => false,
    }
}

impl OfferFlow {
    pub closed spec fn stage(&self) -> OfferStage {
        self.stage
    }

    pub closed spec fn agent(&self) -> EngineV {
        self.brain@
    }

    pub closed spec fn run(&self) -> Option<i64> {
        self.run_id
    }

    pub closed spec fn wf(&self) -> bool {
        self.brain.wf()
    }

    /// Begins with an offer: builds the agent, or refuses. The media socket is to
    /// be bound next.
    pub fn begin(graph: &Json, seed_vars: &JsonMap) -> (r: Result<OfferFlow, Reply>)
        ensures
            flow_result(r, call_agent(graph@, seed_vars@)),
    {
        match build_agent(graph, seed_vars) {
            Ok(brain) => Ok(OfferFlow { brain, stage: OfferStage::Binding, run_id: None }),
            Err(reply) => Err(reply),
        }
    }

    /// Completes an offer: numbers the call and registers the channel for its
    /// events, and only then makes the answer, so that no event is lost.
    pub fn accept<R>(
        &mut self,
        sdp: String,
        numbers: &mut CallNumbers,
        events: &mut EventRegistry<R>,
        receiver: R,
    ) -> (r: OfferResponse)
        requires
            old(self).stage() == OfferStage::Accepting,
            old(events).wf(),
        ensures
            r@ == answer_to(sdp@, old(numbers).upcoming()),
            final(numbers).upcoming() == number_after(old(numbers).upcoming()),
            final(events).wf(),
            final(events)@ == old(events)@.insert(r.pc_id@, Some(receiver)),
            final(self).stage() == OfferStage::Settled,
            final(self).run() == Some(run_id_of(old(numbers).upcoming())),
            final(self).agent() == old(self).agent(),
            old(self).wf() ==> final(self).wf(),
    {
        let run_id: i64 = numbers.take();
        let id: String = pc_id(run_id);
        events.register(id.as_str(), receiver);
        self.stage = OfferStage::Settled;
        self.run_id = Some(run_id);
        OfferResponse { sdp, pc_id: id }
    }

    /// Takes in the outcome of what was asked for. A refused offer takes no number
    /// and registers nothing.
    pub fn on_event<R>(
        &mut self,
        event: OfferEvent<R>,
        numbers: &mut CallNumbers,
        events: &mut EventRegistry<R>,
    ) -> (r: OfferAction)
        requires
            old(events).wf(),
        ensures
            r@ == action_after(old(self).stage(), event, old(numbers).upcoming()),
            final(numbers).upcoming() == upcoming_after(
                old(self).stage(),
                event,
                old(numbers).upcoming(),
            ),
            final(events).wf(),
            final(events)@ == calls_after(
                old(self).stage(),
                event,
                old(numbers).upcoming(),
                old(events)@,
            ),
            final(self).stage() == stage_after(old(self).stage(), event),
            final(self).run() == (if completes(old(self).stage(), event) {
                Some(run_id_of(old(numbers).upcoming()))
            } else {
                old(self).run()
            }),
            final(self).agent() == old(self).agent(),
            old(self).wf() ==> final(self).wf(),
    {
        match (self.stage, event) {
            (OfferStage::Binding, OfferEvent::Bound) => {
                self.stage = OfferStage::Accepting;
                OfferAction::Accept
            },
            (OfferStage::Binding, OfferEvent::BindFailed) => {
                self.stage = OfferStage::Settled;
                OfferAction::Refuse(plain_text(500, "failed to bind a media socket"))
            },
            (OfferStage::Accepting, OfferEvent::Accepted { sdp, receiver }) => {
                OfferAction::Run(self.accept(sdp, numbers, events, receiver))
            },
            (OfferStage::Accepting, OfferEvent::Rejected { reason }) => {
                self.stage = OfferStage::Settled;
                OfferAction::Refuse(plain_text(422, reason.as_str()))
            },
            _ => OfferAction::Unexpected,
        }
    }

    /// The run of an accepted offer.
    pub fn run_id(&self) -> (r: Option<i64>)
        ensures
            r == self.run(),
    {
        self.run_id
    }

    /// The agent, for the call to run.
    pub fn into_agent(self) -> (r: DeclarativeBrain)
        ensures
            r@ == self.agent(),
            self.wf() ==> r.wf(),
    {
        self.brain
    }
}

// ── Laws ──────────────────────────────────────────────────────────────────

/// An offer is answered with a session only after a socket was bound for it and
/// the offer accepted on it; once it is settled nothing more comes of it.
pub proof fn session_needs_socket_and_acceptance<R>(
    stage: OfferStage,
    event: OfferEvent<R>,
    upcoming: u64,
)
    ensures
        action_after(stage, event, upcoming) is Run <==> completes(stage, event),
        stage_after(stage, event) == OfferStage::Accepting ==> stage == OfferStage::Accepting
            || event is Bound,
        action_after(stage, event, upcoming) is Run || action_after(
            stage,
            event,
            upcoming,
        ) is Refuse ==> stage_after(stage, event) == OfferStage::Settled,
        stage == OfferStage::Settled ==> action_after(stage, event, upcoming) is Unexpected
            && stage_after(stage, event) == OfferStage::Settled,
{
}

/// An offer that is not answered with a session takes no number and registers no
/// channel; one that is has its channel registered under the id of the answer.
pub proof fn refused_offer_leaves_no_trace<R>(
    stage: OfferStage,
    event: OfferEvent<R>,
    upcoming: u64,
    calls: Map<Seq<char>, Option<R>>,
)
    ensures
        match action_after(stage, event, upcoming) {
            OfferActionV::Run(answer) => {
                &&& upcoming_after(stage, event, upcoming) == number_after(upcoming)
                &&& taken(calls_after(stage, event, upcoming, calls), answer.pc_id) == Some(
                    event->receiver,
                )
            },
            _ => {
                &&& upcoming_after(stage, event, upcoming) == upcoming
                &&& calls_after(stage, event, upcoming, calls) == calls
            },
        },
{
}

/// The next call number after a series of outcomes, of one offer or of many.
pub open spec fn upcoming_after_all<R>(steps: Seq<(OfferStage, OfferEvent<R>)>, upcoming: u64) -> u64
    decreases steps.len(),
{
    if steps.len() == 0 {
        upcoming
    } else {
        upcoming_after(
            steps.last().0,
            steps.last().1,
            upcoming_after_all(steps.drop_last(), upcoming),
        )
    }
}

/// How many offers a series of outcomes completes.
pub open spec fn completed<R>(steps: Seq<(OfferStage, OfferEvent<R>)>) -> nat
    decreases steps.len(),
{
    if steps.len() == 0 {
        0
    } else {
        completed(steps.drop_last()) + if completes(steps.last().0, steps.last().1) {
            1nat
        } else {
            0nat
        }
    }
}

/// Calls are numbered from one on, in the order in which their offers are
/// accepted: after `k` accepted offers, whatever was refused in between, the next
/// one is `pc-` and `k + 1`.
pub proof fn accepted_offers_are_numbered<R>(
    steps: Seq<(OfferStage, OfferEvent<R>)>,
    sdp: Seq<char>,
)
    requires
        completed(steps) < i64::MAX,
    ensures
        upcoming_after_all(steps, 1) == completed(steps) + 1,
        answer_to(sdp, upcoming_after_all(steps, 1)) == (OfferResponseV {
            sdp,
            pc_id: "pc-"@ + decimal(completed(steps) + 1),
        }),
{
    upcoming_counts(steps);
}

proof fn upcoming_counts<R>(steps: Seq<(OfferStage, OfferEvent<R>)>)
    requires
        completed(steps) < u64::MAX,
    ensures
        upcoming_after_all(steps, 1) == completed(steps) + 1,
    decreases steps.len(),
{
    if steps.len() > 0 {
        upcoming_counts(steps.drop_last());
    }
}

proof fn completed_grows<R>(steps: Seq<(OfferStage, OfferEvent<R>)>, i: int)
    requires
        0 <= i <= steps.len(),
    ensures
        completed(steps.take(i)) <= completed(steps),
    decreases steps.len(),
{
    if i == steps.len() {
        assert(steps.take(i) =~= steps);
    } else {
        assert(steps.drop_last().take(i) =~= steps.take(i));
        completed_grows(steps.drop_last(), i);
    }
}

/// No two accepted offers are answered with the same id.
pub proof fn accepted_offers_have_distinct_ids<R>(
    steps: Seq<(OfferStage, OfferEvent<R>)>,
    i: int,
    j: int,
)
    requires
        completed(steps) < u64::MAX,
        0 <= i < j < steps.len(),
        completes(steps[i].0, steps[i].1),
        completes(steps[j].0, steps[j].1),
    ensures
        answer_to(steps[i].1->sdp@, upcoming_after_all(steps.take(i), 1)).pc_id != answer_to(
            steps[j].1->sdp@,
            upcoming_after_all(steps.take(j), 1),
        ).pc_id,
{
    completed_grows(steps, i);
    completed_grows(steps, j);
    upcoming_counts(steps.take(i));
    upcoming_counts(steps.take(j));
    completed_grows(steps.take(j), i + 1);
    assert(steps.take(j).take(i + 1) =~= steps.take(i + 1));
    assert(steps.take(i + 1).drop_last() =~= steps.take(i));
    let a = upcoming_after_all(steps.take(i), 1);
    let b = upcoming_after_all(steps.take(j), 1);
    assert(a < b);
    call_numbers_ascend(a, b);
    if pc_id_of(run_id_of(a)) == pc_id_of(run_id_of(b)) {
        call_ids_differ(run_id_of(a), run_id_of(b));
    }
}

/// Different calls have different ids.
pub proof fn call_ids_differ(a: i64, b: i64)
    requires
        pc_id_of(a) == pc_id_of(b),
    ensures
        a == b,
{
    let x = decimal_int(a as int);
    let y = decimal_int(b as int);
    assert(x =~= pc_id_of(a).skip("pc-"@.len() as int));
    assert(y =~= pc_id_of(b).skip("pc-"@.len() as int));
    crate::text::decimal_int_is_one_to_one(a as int, b as int);
}

/// Numbers ascend one by one for as long as they fit, and no two of them give the
/// same run.
pub proof fn call_numbers_ascend(a: u64, b: u64)
    ensures
        a < i64::MAX ==> run_id_of(number_after(a)) == run_id_of(a) + 1,
        a != b ==> run_id_of(a) != run_id_of(b),
{
}

} // verus!
