//! The broadcaster: signs a batch of messages as one transaction, estimates
//! and pays its gas, submits it and waits for a block to include it.
use vstd::prelude::*;
use crate::account_client::GasEstimatorError;
use crate::cosmos::{secp256k1_public_key, public_key_of};
use crate::helpers::{
    BlockInclusionWait, WaitAction, generate_sim_tx, generate_tx, signed_shape, signed_tx_of,
    sim_tx_encoding,
};
use crate::msg::{Any, Fee, anys_view};

verus! {

/// Why a broadcast failed.
#[derive(Debug, PartialEq, Eq, Structural, Clone, Copy)]
pub enum BroadcasterError {
    /// The node could not be reached to submit the transaction.
    ConnectionFailed,
    /// The transaction could not be built, encoded or signed.
    TxMarshalingFailed,
    /// No block was seen to include the transaction within the allowed polls.
    BlockInclusionTimeout,
    /// The gas that the transaction needs could not be estimated.
    GasEstimationFailed,
}

/// The broadcaster's state: the signing account and the chain, as they stand
/// between broadcasts.
pub struct Broadcaster {
    acc_number: u64,
    acc_sequence: u64,
    tx_fetch_max_retries: u32,
    priv_key: Vec<u8>,
    chain_id: String,
}

/// The mathematical view of a `Broadcaster`.
pub ghost struct BroadcasterView {
    pub acc_number: u64,
    pub acc_sequence: u64,
    pub tx_fetch_max_retries: u32,
    pub priv_key: Seq<u8>,
    pub chain_id: Seq<char>,
}

impl View for Broadcaster {
    type V = BroadcasterView;

    closed spec fn view(&self) -> BroadcasterView {
        BroadcasterView {
            acc_number: self.acc_number,
            acc_sequence: self.acc_sequence,
            tx_fetch_max_retries: self.tx_fetch_max_retries,
            priv_key: self.priv_key@,
            chain_id: self.chain_id@,
        }
    }
}

/// Where a broadcast stands.
#[derive(Debug, Clone, Copy, PartialEq, Eq)]
pub enum BroadcastStage {
    /// The simulated transaction is out for gas estimation.
    EstimatingGas,
    /// The estimated gas is out to be priced into a fee.
    PricingFee,
    /// The signed transaction is out to the node.
    Submitting,
    /// The node has the transaction; waiting for a block to include it.
    AwaitingInclusion(BlockInclusionWait),
    /// The broadcast is over.
    Finished,
}

/// One broadcast of a batch of messages, in progress.
#[derive(Debug)]
pub struct BroadcastAttempt {
    msgs: Vec<Any>,
    stage: BroadcastStage,
}

/// The mathematical view of a `BroadcastAttempt`: its messages and its stage.
pub ghost struct AttemptView {
    pub msgs: Seq<(Seq<char>, Seq<u8>)>,
    pub stage: BroadcastStage,
}

impl View for BroadcastAttempt {
    type V = AttemptView;

    closed spec fn view(&self) -> AttemptView {
        AttemptView { msgs: anys_view(self.msgs@), stage: self.stage }
    }
}

/// What the driver of a broadcast reports back.
#[derive(Debug)]
pub enum BroadcastEvent {
    /// The outcome of the gas estimation.
    GasEstimated(Result<u64, GasEstimatorError>),
    /// The fee priced for the estimated gas.
    FeePriced(Fee),
    /// Whether the node answered the submission.
    Submitted(bool),
    /// Whether the node knew the block height of the transaction at this poll.
    InclusionPolled(bool),
}

/// The mathematical view of a `BroadcastEvent`.
pub ghost enum EventView {
    GasEstimated(Result<u64, GasEstimatorError>),
    FeePriced((u128, Seq<char>, u64)),
    Submitted(bool),
    InclusionPolled(bool),
}

impl View for BroadcastEvent {
    type V = EventView;

    open spec fn view(&self) -> EventView {
        match self {
            BroadcastEvent::GasEstimated(r) => EventView::GasEstimated(*r),
            BroadcastEvent::FeePriced(fee) => EventView::FeePriced(fee@),
            BroadcastEvent::Submitted(ok) => EventView::Submitted(*ok),
            BroadcastEvent::InclusionPolled(ok) => EventView::InclusionPolled(*ok),
        }
    }
}

/// What the driver of a broadcast is asked to do next.
#[derive(Debug, PartialEq, Eq)]
pub enum BroadcastAction {
    /// Estimate the gas of this simulated transaction.
    EstimateGas(Vec<u8>),
    /// Price a fee for this much estimated gas.
    PriceFee(u64),
    /// Submit this signed transaction to the node.
    Submit(Vec<u8>),
    /// Sleep for the fetch interval, then ask the node for the transaction.
    SleepThenPoll,
    /// The broadcast is over, with this outcome.
    Finish(Result<(), BroadcasterError>),
}

/// The mathematical view of a `BroadcastAction`.
pub ghost enum ActionView {
    EstimateGas(Seq<u8>),
    PriceFee(u64),
    Submit(Seq<u8>),
    SleepThenPoll,
    Finish(Result<(), BroadcasterError>),
}

impl View for BroadcastAction {
    type V = ActionView;

    open spec fn view(&self) -> ActionView {
        match self {
            BroadcastAction::EstimateGas(tx) => ActionView::EstimateGas(tx@),
            BroadcastAction::PriceFee(gas) => ActionView::PriceFee(*gas),
            BroadcastAction::Submit(tx) => ActionView::Submit(tx@),
            BroadcastAction::SleepThenPoll => ActionView::SleepThenPoll,
            BroadcastAction::Finish(r) => ActionView::Finish(*r),
        }
    }
}

/// A stage is well formed when a wait in progress is consistent and not over.
pub open spec fn stage_wf(stage: BroadcastStage) -> bool {
    match stage {
        BroadcastStage::AwaitingInclusion(w) => w.wf() && !w.done,
        _ => true,
    }
}

/// Whether a broadcast at `stage` takes `event` next.
pub open spec fn accepts_event(stage: BroadcastStage, event: EventView) -> bool {
    match (stage, event) {
        (BroadcastStage::EstimatingGas, EventView::GasEstimated(_)) => true,
        (BroadcastStage::PricingFee, EventView::FeePriced(_)) => true,
        (BroadcastStage::Submitting, EventView::Submitted(_)) => true,
        (BroadcastStage::AwaitingInclusion(_), EventView::InclusionPolled(_)) => true,
        _ => false,
    }
}

/// How a broadcast of `msgs` starts: the transaction to simulate, made for the
/// account's current sequence and the public key of its secret key.
pub open spec fn begin(b: BroadcasterView, msgs: Seq<(Seq<char>, Seq<u8>)>) -> (AttemptView, ActionView) {
    let sim = match secp256k1_public_key(b.priv_key) {
        Some(pub_key) => sim_tx_encoding(msgs, b.acc_sequence, pub_key),
        None => None,
    };
    match sim {
        Some(tx) => (AttemptView { msgs, stage: BroadcastStage::EstimatingGas }, ActionView::EstimateGas(tx)),
        None => (
            AttemptView { msgs, stage: BroadcastStage::Finished },
            ActionView::Finish(Err(BroadcasterError::TxMarshalingFailed)),
        ),
    }
}

/// A broadcast that ends here with outcome `r`.
pub open spec fn finish(
    b: BroadcasterView,
    a: AttemptView,
    r: Result<(), BroadcasterError>,
) -> (BroadcasterView, AttemptView, ActionView) {
    (b, AttemptView { stage: BroadcastStage::Finished, ..a }, ActionView::Finish(r))
}

/// One step of a broadcast: the event that the driver reports moves the
/// broadcaster and the attempt on, and gives the driver its next action.
pub open spec fn next(b: BroadcasterView, a: AttemptView, e: EventView) -> (
    BroadcasterView,
    AttemptView,
    ActionView,
) {
    match (a.stage, e) {
        (BroadcastStage::EstimatingGas, EventView::GasEstimated(Err(_))) => finish(
            b,
            a,
            Err(BroadcasterError::GasEstimationFailed),
        ),
        (BroadcastStage::EstimatingGas, EventView::GasEstimated(Ok(gas))) => (
            b,
            AttemptView { stage: BroadcastStage::PricingFee, ..a },
            ActionView::PriceFee(gas),
        ),
        (BroadcastStage::PricingFee, EventView::FeePriced(fee)) => match signed_tx_of(
            a.msgs,
            b.priv_key,
            b.acc_number,
            b.acc_sequence,
            fee,
            b.chain_id,
        ) {
            Some(tx) => (b, AttemptView { stage: BroadcastStage::Submitting, ..a }, ActionView::Submit(tx)),
            None => finish(b, a, Err(BroadcasterError::TxMarshalingFailed)),
        },
        (BroadcastStage::Submitting, EventView::Submitted(false)) => finish(
            b,
            a,
            Err(BroadcasterError::ConnectionFailed),
        ),
        (BroadcastStage::Submitting, EventView::Submitted(true)) => {
            let (w, act) = BlockInclusionWait::initial(b.tx_fetch_max_retries);
            match act {
                WaitAction::Finish(r) => finish(b, a, r),
                WaitAction::SleepThenPoll => (
                    b,
                    AttemptView { stage: BroadcastStage::AwaitingInclusion(w), ..a },
                    ActionView::SleepThenPoll,
                ),
            }
        },
        (BroadcastStage::AwaitingInclusion(w), EventView::InclusionPolled(included)) => {
            let (w2, act) = w.step(included);
            match act {
                WaitAction::Finish(Ok(())) => finish(
                    BroadcasterView { acc_sequence: (b.acc_sequence + 1) as u64, ..b },
                    a,
                    Ok(()),
                ),
                WaitAction::Finish(Err(err)) => finish(b, a, Err(err)),
                WaitAction::SleepThenPoll => (
                    b,
                    AttemptView { stage: BroadcastStage::AwaitingInclusion(w2), ..a },
                    ActionView::SleepThenPoll,
                ),
            }
        },
        _ => (b, a, ActionView::Finish(Err(BroadcasterError::TxMarshalingFailed))),
    }
}

/// A broadcast starts by asking for the gas of the transaction that simulates
/// `msgs` for the broadcaster's own key at its current sequence, when that
/// transaction can be made; otherwise it is over at once with
/// `TxMarshalingFailed`. Either way the attempt carries `msgs`.
pub proof fn lemma_begin(b: BroadcasterView, msgs: Seq<(Seq<char>, Seq<u8>)>)
    ensures
        begin(b, msgs).0.msgs == msgs,
        (secp256k1_public_key(b.priv_key) is Some && sim_tx_encoding(
            msgs,
            b.acc_sequence,
            secp256k1_public_key(b.priv_key).unwrap(),
        ) is Some) ==> begin(b, msgs) == (
            AttemptView { msgs, stage: BroadcastStage::EstimatingGas },
            ActionView::EstimateGas(
                sim_tx_encoding(msgs, b.acc_sequence, secp256k1_public_key(b.priv_key).unwrap()).unwrap(),
            ),
        ),
        !(secp256k1_public_key(b.priv_key) is Some && sim_tx_encoding(
            msgs,
            b.acc_sequence,
            secp256k1_public_key(b.priv_key).unwrap(),
        ) is Some) ==> begin(b, msgs) == (
            AttemptView { msgs, stage: BroadcastStage::Finished },
            ActionView::Finish(Err(BroadcasterError::TxMarshalingFailed)),
        ),
{
}

/// What each event does to a broadcast in progress:
/// - an estimate of `g` gas asks for a fee for exactly `g` gas; a failed
///   estimate ends the broadcast with `GasEstimationFailed`;
/// - a priced fee asks to submit the transaction that carries the attempt's
///   messages, signed with the broadcaster's key for its account number, at its
///   current sequence, with that fee, on its chain; or ends with
///   `TxMarshalingFailed` where it cannot be made;
/// - a failed submission ends with `ConnectionFailed`; a successful one starts
///   a wait with room for exactly the broadcaster's `tx_fetch_max_retries`
///   polls (none at all: over at once with `BlockInclusionTimeout`);
/// - a poll that finds the transaction ends in success and moves the sequence
///   on by one; a failed poll asks for another poll while polls are left, and
///   ends with `BlockInclusionTimeout` on the last one.
/// Only a successful poll changes the broadcaster, and no step changes the
/// attempt's messages.
pub proof fn lemma_step_outcomes(b: BroadcasterView, a: AttemptView, e: EventView)
    requires
        stage_wf(a.stage),
        accepts_event(a.stage, e),
    ensures
        next(b, a, e).1.msgs == a.msgs,
        e matches EventView::GasEstimated(Ok(g)) ==> next(b, a, e) == (
                b,
                AttemptView { stage: BroadcastStage::PricingFee, ..a },
                ActionView::PriceFee(g),
            ),
        e matches EventView::GasEstimated(Err(_)) ==> next(b, a, e) == (
            b,
            AttemptView { stage: BroadcastStage::Finished, ..a },
            ActionView::Finish(Err(BroadcasterError::GasEstimationFailed)),
        ),
        e matches EventView::FeePriced(fee) ==> next(b, a, e) == if signed_tx_of(
                a.msgs,
                b.priv_key,
                b.acc_number,
                b.acc_sequence,
                fee,
                b.chain_id,
            ) is Some {
                (
                    b,
                    AttemptView { stage: BroadcastStage::Submitting, ..a },
                    ActionView::Submit(
                        signed_tx_of(a.msgs, b.priv_key, b.acc_number, b.acc_sequence, fee, b.chain_id).unwrap(),
                    ),
                )
            } else {
                (
                    b,
                    AttemptView { stage: BroadcastStage::Finished, ..a },
                    ActionView::Finish(Err(BroadcasterError::TxMarshalingFailed)),
                )
            },
        e == EventView::Submitted(false) ==> next(b, a, e) == (
            b,
            AttemptView { stage: BroadcastStage::Finished, ..a },
            ActionView::Finish(Err(BroadcasterError::ConnectionFailed)),
        ),
        e == EventView::Submitted(true) && b.tx_fetch_max_retries == 0 ==> next(b, a, e) == (
            b,
            AttemptView { stage: BroadcastStage::Finished, ..a },
            ActionView::Finish(Err(BroadcasterError::BlockInclusionTimeout)),
        ),
        e == EventView::Submitted(true) && b.tx_fetch_max_retries > 0 ==> next(b, a, e) == (
            b,
            AttemptView {
                stage: BroadcastStage::AwaitingInclusion(
                    BlockInclusionWait { max_retries: b.tx_fetch_max_retries, polls: 0, done: false },
                ),
                ..a
            },
            ActionView::SleepThenPoll,
        ),
        a.stage matches BroadcastStage::AwaitingInclusion(w) ==> e == EventView::InclusionPolled(true)
                ==> next(b, a, e) == (
                BroadcasterView { acc_sequence: (b.acc_sequence + 1) as u64, ..b },
                AttemptView { stage: BroadcastStage::Finished, ..a },
                ActionView::Finish(Ok(())),
            ),
        a.stage matches BroadcastStage::AwaitingInclusion(w) ==> (e == EventView::InclusionPolled(false)
                && w.polls + 1 == w.max_retries) ==> next(b, a, e) == (
                b,
                AttemptView { stage: BroadcastStage::Finished, ..a },
                ActionView::Finish(Err(BroadcasterError::BlockInclusionTimeout)),
            ),
        a.stage matches BroadcastStage::AwaitingInclusion(w) ==> (e == EventView::InclusionPolled(false)
                && w.polls + 1 < w.max_retries) ==> next(b, a, e) == (
                b,
                AttemptView {
                    stage: BroadcastStage::AwaitingInclusion(
                        BlockInclusionWait { polls: (w.polls + 1) as u32, ..w },
                    ),
                    ..a
                },
                ActionView::SleepThenPoll,
            ),
{
}

/// `n` failed polls in a row.
pub open spec fn failed_polls(n: nat) -> Seq<EventView> {
    Seq::new(n, |i: int| EventView::InclusionPolled(false))
}

/// After a successful submission and `j` failed polls, with fewer than
/// `tx_fetch_max_retries` polls made, the broadcast is still waiting, with `j`
/// polls made, and the broadcaster is unchanged.
proof fn lemma_waiting_after_failed_polls(b: BroadcasterView, a: AttemptView, j: nat)
    requires
        a.stage == BroadcastStage::Submitting,
        j < b.tx_fetch_max_retries,
    ensures
        run(b, a, seq![EventView::Submitted(true)] + failed_polls(j)) == (
            b,
            AttemptView {
                stage: BroadcastStage::AwaitingInclusion(
                    BlockInclusionWait { max_retries: b.tx_fetch_max_retries, polls: j as u32, done: false },
                ),
                ..a
            },
            None::<Result<(), BroadcasterError>>,
        ),
    decreases j,
{
    let events = seq![EventView::Submitted(true)] + failed_polls(j);
    if j == 0 {
        assert(events.drop_last() =~= Seq::<EventView>::empty());
        assert(events.last() == EventView::Submitted(true));
        assert(run(b, a, events.drop_last()) == (b, a, None::<Result<(), BroadcasterError>>));
    } else {
        lemma_waiting_after_failed_polls(b, a, (j - 1) as nat);
        assert(events.drop_last() =~= seq![EventView::Submitted(true)] + failed_polls((j - 1) as nat));
        assert(events.last() == EventView::InclusionPolled(false));
    }
}

/// A broadcast that is submitted and whose transaction the node finds on poll
/// `k`, for any `k` up to `tx_fetch_max_retries` (after `k - 1` failed polls),
/// ends in success and moves the sequence on by exactly one.
pub proof fn lemma_included_on_poll(b: BroadcasterView, a: AttemptView, k: nat)
    requires
        a.stage == BroadcastStage::Submitting,
        1 <= k <= b.tx_fetch_max_retries,
        b.acc_sequence < u64::MAX,
    ensures
        run(b, a, seq![EventView::Submitted(true)] + failed_polls((k - 1) as nat).push(
            EventView::InclusionPolled(true),
        )).2 == Some(Ok::<(), BroadcasterError>(())),
        run(b, a, seq![EventView::Submitted(true)] + failed_polls((k - 1) as nat).push(
            EventView::InclusionPolled(true),
        )).0 == (BroadcasterView { acc_sequence: (b.acc_sequence + 1) as u64, ..b }),
        run(b, a, seq![EventView::Submitted(true)] + failed_polls((k - 1) as nat).push(
            EventView::InclusionPolled(true),
        )).0.acc_sequence == b.acc_sequence + 1,
{
    let prefix = seq![EventView::Submitted(true)] + failed_polls((k - 1) as nat);
    lemma_waiting_after_failed_polls(b, a, (k - 1) as nat);
    let events = prefix.push(EventView::InclusionPolled(true));
    assert(events.drop_last() =~= prefix);
}

/// A broadcast that is submitted and whose transaction the node does not find
/// on any of the `tx_fetch_max_retries` polls ends with
/// `BlockInclusionTimeout`, and the sequence stays where it was.
pub proof fn lemma_times_out_after_all_polls(b: BroadcasterView, a: AttemptView)
    requires
        a.stage == BroadcastStage::Submitting,
        b.tx_fetch_max_retries > 0,
    ensures
        run(b, a, seq![EventView::Submitted(true)] + failed_polls(b.tx_fetch_max_retries as nat)).2 == Some(
            Err::<(), BroadcasterError>(BroadcasterError::BlockInclusionTimeout),
        ),
        run(b, a, seq![EventView::Submitted(true)] + failed_polls(b.tx_fetch_max_retries as nat)).0 == b,
{
    let m = b.tx_fetch_max_retries as nat;
    lemma_waiting_after_failed_polls(b, a, (m - 1) as nat);
    let events = seq![EventView::Submitted(true)] + failed_polls(m);
    assert(events.drop_last() =~= seq![EventView::Submitted(true)] + failed_polls((m - 1) as nat));
    assert(events.last() == EventView::InclusionPolled(false));
}

/// The outcome of an action, where it ends the broadcast.
pub open spec fn outcome(action: ActionView) -> Option<Result<(), BroadcasterError>> {
    match action {
        ActionView::Finish(r) => Some(r),
        _ => None,
    }
}

/// One step of a broadcast changes nothing of the broadcaster but its
/// sequence, and that only by one, exactly when the step ends the broadcast in
/// success. A step ends the broadcast exactly when it leaves the attempt
/// finished, and a finished attempt takes no further event.
pub proof fn lemma_step_sequence(b: BroadcasterView, a: AttemptView, e: EventView)
    requires
        stage_wf(a.stage),
        accepts_event(a.stage, e),
        a.stage is AwaitingInclusion && e == EventView::InclusionPolled(true) ==> b.acc_sequence < u64::MAX,
    ensures
        next(b, a, e).0 == (BroadcasterView { acc_sequence: next(b, a, e).0.acc_sequence, ..b }),
        next(b, a, e).2 == ActionView::Finish(Ok(())) ==> next(b, a, e).0.acc_sequence == b.acc_sequence + 1,
        next(b, a, e).2 != ActionView::Finish(Ok(())) ==> next(b, a, e).0.acc_sequence == b.acc_sequence,
        (next(b, a, e).1.stage is Finished) <==> outcome(next(b, a, e).2) is Some,
        next(b, a, e).1.msgs == a.msgs,
        stage_wf(next(b, a, e).1.stage),
        forall|e2: EventView| !accepts_event(BroadcastStage::Finished, e2),
{
    lemma_step_shape(b, a, e);
}

/// The shape of one step, for any sequence number: as `lemma_step_sequence`,
/// with the sequence after a success taken modulo 2^64.
proof fn lemma_step_shape(b: BroadcasterView, a: AttemptView, e: EventView)
    requires
        stage_wf(a.stage),
        accepts_event(a.stage, e),
    ensures
        next(b, a, e).0 == (BroadcasterView { acc_sequence: next(b, a, e).0.acc_sequence, ..b }),
        next(b, a, e).2 == ActionView::Finish(Ok(())) ==> next(b, a, e).0.acc_sequence == (b.acc_sequence
            + 1) as u64,
        next(b, a, e).2 != ActionView::Finish(Ok(())) ==> next(b, a, e).0.acc_sequence == b.acc_sequence,
        next(b, a, e).2 == ActionView::Finish(Ok(())) ==> a.stage is AwaitingInclusion && e
            == EventView::InclusionPolled(true),
        (next(b, a, e).1.stage is Finished) <==> outcome(next(b, a, e).2) is Some,
        next(b, a, e).1.msgs == a.msgs,
        stage_wf(next(b, a, e).1.stage),
        forall|e2: EventView| !accepts_event(BroadcastStage::Finished, e2),
{
    if let BroadcastStage::AwaitingInclusion(w) = a.stage {
        if let EventView::InclusionPolled(included) = e {
            let (w2, act) = w.step(included);
            assert(w2.wf());
        }
    }
}

/// A broadcast driven by `events`, in order, from broadcaster `b` and attempt
/// `a`; events that arrive when the attempt does not take them are dropped.
/// The last component is the outcome once the broadcast is over.
pub open spec fn run(b: BroadcasterView, a: AttemptView, events: Seq<EventView>) -> (
    BroadcasterView,
    AttemptView,
    Option<Result<(), BroadcasterError>>,
)
    decreases events.len(),
{
    if events.len() == 0 {
        (b, a, None)
    } else {
        let (b1, a1, fin) = run(b, a, events.drop_last());
        if accepts_event(a1.stage, events.last()) {
            let (b2, a2, act) = next(b1, a1, events.last());
            (b2, a2, outcome(act))
        } else {
            (b1, a1, fin)
        }
    }
}

/// Over a whole broadcast, whatever the driver reports, the broadcaster's
/// sequence goes up by exactly one if the broadcast succeeded and stays where
/// it was otherwise (failed or not over yet), and nothing else of the
/// broadcaster changes; so until the broadcast has succeeded, every step of it
/// (and every transaction it simulates or signs) uses the broadcaster it
/// started from. Once over, a broadcast stays over with its outcome.
pub proof fn lemma_run_sequence(b: BroadcasterView, a: AttemptView, events: Seq<EventView>)
    requires
        stage_wf(a.stage),
        !(a.stage is Finished),
        run(b, a, events).2 == Some(Ok::<(), BroadcasterError>(())) ==> b.acc_sequence < u64::MAX,
    ensures
        run(b, a, events).0 == (BroadcasterView { acc_sequence: run(b, a, events).0.acc_sequence, ..b }),
        run(b, a, events).2 == Some(Ok::<(), BroadcasterError>(())) ==> run(b, a, events).0.acc_sequence
            == b.acc_sequence + 1,
        run(b, a, events).2 != Some(Ok::<(), BroadcasterError>(())) ==> run(b, a, events).0 == b,
        (run(b, a, events).1.stage is Finished) <==> run(b, a, events).2 is Some,
        stage_wf(run(b, a, events).1.stage),
        run(b, a, events).1.msgs == a.msgs,
    decreases events.len(),
{
    lemma_run_shape(b, a, events);
}

/// The shape of a run, for any sequence number: as `lemma_run_sequence`, with
/// the sequence after a success taken modulo 2^64; a run that is over ignores
/// every later event.
proof fn lemma_run_shape(b: BroadcasterView, a: AttemptView, events: Seq<EventView>)
    requires
        stage_wf(a.stage),
        !(a.stage is Finished),
    ensures
        run(b, a, events).0 == (BroadcasterView { acc_sequence: run(b, a, events).0.acc_sequence, ..b }),
        run(b, a, events).2 == Some(Ok::<(), BroadcasterError>(())) ==> run(b, a, events).0.acc_sequence
            == (b.acc_sequence + 1) as u64,
        run(b, a, events).2 != Some(Ok::<(), BroadcasterError>(())) ==> run(b, a, events).0 == b,
        (run(b, a, events).1.stage is Finished) <==> run(b, a, events).2 is Some,
        stage_wf(run(b, a, events).1.stage),
        run(b, a, events).1.msgs == a.msgs,
    decreases events.len(),
{
    if events.len() > 0 {
        lemma_run_shape(b, a, events.drop_last());
        let (b1, a1, fin) = run(b, a, events.drop_last());
        if accepts_event(a1.stage, events.last()) {
            lemma_step_shape(b1, a1, events.last());
        }
    }
}

/// The number of broadcasts among `outcomes` that succeeded.
pub open spec fn successes(outcomes: Seq<Option<Result<(), BroadcasterError>>>) -> nat
    decreases outcomes.len(),
{
    if outcomes.len() == 0 {
        0
    } else {
        successes(outcomes.drop_last()) + if outcomes.last() == Some(Ok::<(), BroadcasterError>(())) {
            1nat
        } else {
            0nat
        }
    }
}

/// A series of broadcasts from `b`, one after the other: each batch holds the
/// messages of one broadcast and the events that its driver reported. The
/// result is the broadcaster after the series, the broadcaster that each
/// broadcast started from, and the outcome of each (`None` where it was not
/// over).
pub open spec fn series(
    b: BroadcasterView,
    batches: Seq<(Seq<(Seq<char>, Seq<u8>)>, Seq<EventView>)>,
) -> (BroadcasterView, Seq<BroadcasterView>, Seq<Option<Result<(), BroadcasterError>>>)
    decreases batches.len(),
{
    if batches.len() == 0 {
        (b, Seq::empty(), Seq::empty())
    } else {
        let (b1, starts, outs) = series(b, batches.drop_last());
        let (a, act) = begin(b1, batches.last().0);
        let (b2, out) = if outcome(act) is Some {
            (b1, outcome(act))
        } else {
            let r = run(b1, a, batches.last().1);
            (r.0, r.2)
        };
        (b2, starts.push(b1), outs.push(out))
    }
}

/// Over any series of broadcasts from sequence `s`, of which `c` succeeded
/// (with `s + c` within `u64`), the broadcaster ends at sequence `s + c`, with
/// its account number, key, chain id and retry limit unchanged, and broadcast
/// `i` starts from (and so simulates and signs with) sequence `s` plus the
/// number of successes among the broadcasts before it.
pub proof fn lemma_series_sequence(
    b: BroadcasterView,
    batches: Seq<(Seq<(Seq<char>, Seq<u8>)>, Seq<EventView>)>,
)
    requires
        b.acc_sequence + successes(series(b, batches).2) <= u64::MAX,
    ensures
        series(b, batches).0 == (BroadcasterView {
            acc_sequence: (b.acc_sequence + successes(series(b, batches).2)) as u64,
            ..b
        }),
        series(b, batches).1.len() == batches.len(),
        series(b, batches).2.len() == batches.len(),
        forall|i: int|
            0 <= i < batches.len() ==> #[trigger] series(b, batches).1[i] == (BroadcasterView {
                acc_sequence: (b.acc_sequence + successes(series(b, batches).2.take(i))) as u64,
                ..b
            }),
    decreases batches.len(),
{
    if batches.len() > 0 {
        let prefix = batches.drop_last();
        let (b1, starts, outs) = series(b, prefix);
        let (a, act) = begin(b1, batches.last().0);
        let out = if outcome(act) is Some {
            outcome(act)
        } else {
            run(b1, a, batches.last().1).2
        };
        assert(series(b, batches).2 == outs.push(out));
        assert(outs.push(out).drop_last() =~= outs);
        lemma_series_sequence(b, prefix);
        if outcome(act) is None {
            lemma_run_sequence(b1, a, batches.last().1);
        }
        assert forall|i: int| 0 <= i < batches.len() implies #[trigger] series(b, batches).1[i]
            == (BroadcasterView {
            acc_sequence: (b.acc_sequence + successes(series(b, batches).2.take(i))) as u64,
            ..b
        }) by {
            if i < prefix.len() {
                assert(outs.push(out).take(i) =~= outs.take(i));
            } else {
                assert(outs.push(out).take(i) =~= outs);
                assert(outs.take(i) =~= outs);
            }
        }
    }
}

impl BroadcastAttempt {
    /// Whether this attempt takes `event` next: each stage waits for the answer
    /// to the action it asked for, and a finished attempt takes nothing.
    pub fn accepts(&self, event: &BroadcastEvent) -> (r: bool)
        ensures
            r == accepts_event(self@.stage, event@),
    {
        match (&self.stage, event) {
            (BroadcastStage::EstimatingGas, BroadcastEvent::GasEstimated(_)) => true,
            (BroadcastStage::PricingFee, BroadcastEvent::FeePriced(_)) => true,
            (BroadcastStage::Submitting, BroadcastEvent::Submitted(_)) => true,
            (BroadcastStage::AwaitingInclusion(_), BroadcastEvent::InclusionPolled(_)) => true,
            _ => false,
        }
    }

    /// The stage that this attempt has reached.
    pub fn stage(&self) -> (r: BroadcastStage)
        ensures
            r == self@.stage,
    {
        self.stage
    }

    /// Well-formedness of an attempt: see `stage_wf`.
    pub open spec fn wf(&self) -> bool {
        stage_wf(self@.stage)
    }
}

impl Broadcaster {
    /// A broadcaster for the account `acc_number`, whose next transaction
    /// carries `acc_sequence`, signing with the secp256k1 secret key
    /// `priv_key` on the chain `chain_id`, and polling at most
    /// `tx_fetch_max_retries` times for a submitted transaction.
    pub fn new(
        acc_number: u64,
        acc_sequence: u64,
        tx_fetch_max_retries: u32,
        priv_key: Vec<u8>,
        chain_id: String,
    ) -> (b: Broadcaster)
        ensures
            b@ == (BroadcasterView {
                acc_number,
                acc_sequence,
                tx_fetch_max_retries,
                priv_key: priv_key@,
                chain_id: chain_id@,
            }),
    {
        Broadcaster { acc_number, acc_sequence, tx_fetch_max_retries, priv_key, chain_id }
    }

    /// The account number that transactions are signed for.
    pub fn acc_number(&self) -> (r: u64)
        ensures
            r == self@.acc_number,
    {
        self.acc_number
    }

    /// The sequence number that the next transaction carries.
    pub fn acc_sequence(&self) -> (r: u64)
        ensures
            r == self@.acc_sequence,
    {
        self.acc_sequence
    }

    /// Starts broadcasting `msgs` as one transaction: asks for the gas of the
    /// simulated transaction, or ends at once with `TxMarshalingFailed` where
    /// that transaction cannot be made.
    pub fn broadcast(&self, msgs: Vec<Any>) -> (r: (BroadcastAttempt, BroadcastAction))
        ensures
            (r.0@, r.1@) == begin(self@, anys_view(msgs@)),
            r.0.wf(),
    {
        let pub_key = match public_key_of(&self.priv_key) {
            Ok(k) => k,
            Err(_) => {
                let a = BroadcastAttempt { msgs, stage: BroadcastStage::Finished };
                return (a, BroadcastAction::Finish(Err(BroadcasterError::TxMarshalingFailed)));
            },
        };
        match generate_sim_tx(&msgs, self.acc_sequence, &pub_key) {
            Ok(tx) => (BroadcastAttempt { msgs, stage: BroadcastStage::EstimatingGas }, BroadcastAction::EstimateGas(tx)),
            Err(e) => (BroadcastAttempt { msgs, stage: BroadcastStage::Finished }, BroadcastAction::Finish(Err(e))),
        }
    }

    /// Moves the broadcast `attempt` on by the `event` that its driver
    /// reports, and returns the driver's next action. The account sequence
    /// goes up by one exactly when the broadcast ends in success.
    pub fn advance(&mut self, attempt: &mut BroadcastAttempt, event: BroadcastEvent) -> (action: BroadcastAction)
        requires
            old(attempt).wf(),
            accepts_event(old(attempt)@.stage, event@),
            old(attempt)@.stage is AwaitingInclusion && event@ == EventView::InclusionPolled(true)
                ==> old(self)@.acc_sequence < u64::MAX,
        ensures
            (final(self)@, final(attempt)@, action@) == next(old(self)@, old(attempt)@, event@),
            final(attempt).wf(),
            match (action@, event@) {
                (ActionView::Submit(tx), EventView::FeePriced(fee)) => signed_shape(
                    tx,
                    old(attempt)@.msgs,
                    old(self)@.priv_key,
                    old(self)@.acc_sequence,
                    fee,
                ),
                _ => true,
            },
    {
        match event {
            BroadcastEvent::GasEstimated(Err(_)) => {
                attempt.stage = BroadcastStage::Finished;
                BroadcastAction::Finish(Err(BroadcasterError::GasEstimationFailed))
            },
            BroadcastEvent::GasEstimated(Ok(gas)) => {
                attempt.stage = BroadcastStage::PricingFee;
                BroadcastAction::PriceFee(gas)
            },
            BroadcastEvent::FeePriced(fee) => {
                match generate_tx(&attempt.msgs, &self.priv_key, self.acc_number, self.acc_sequence, &fee, &self.chain_id) {
                    Ok(tx) => {
                        attempt.stage = BroadcastStage::Submitting;
                        BroadcastAction::Submit(tx)
                    },
                    Err(e) => {
                        attempt.stage = BroadcastStage::Finished;
                        BroadcastAction::Finish(Err(e))
                    },
                }
            },
            BroadcastEvent::Submitted(false) => {
                attempt.stage = BroadcastStage::Finished;
                BroadcastAction::Finish(Err(BroadcasterError::ConnectionFailed))
            },
            BroadcastEvent::Submitted(true) => {
                let (w, act) = BlockInclusionWait::start(self.tx_fetch_max_retries);
                match act {
                    WaitAction::Finish(r) => {
                        attempt.stage = BroadcastStage::Finished;
                        BroadcastAction::Finish(r)
                    },
                    WaitAction::SleepThenPoll => {
                        attempt.stage = BroadcastStage::AwaitingInclusion(w);
                        BroadcastAction::SleepThenPoll
                    },
                }
            },
            BroadcastEvent::InclusionPolled(included) => {
                let mut w = match attempt.stage {
                    BroadcastStage::AwaitingInclusion(w) => w,
                    _ => {
                        attempt.stage = BroadcastStage::Finished;
                        return BroadcastAction::Finish(Err(BroadcasterError::TxMarshalingFailed));
                    },
                };
                match w.on_poll(included) {
                    WaitAction::Finish(Ok(())) => {
                        self.acc_sequence = self.acc_sequence + 1;
                        attempt.stage = BroadcastStage::Finished;
                        BroadcastAction::Finish(Ok(()))
                    },
                    WaitAction::Finish(Err(err)) => {
                        attempt.stage = BroadcastStage::Finished;
                        BroadcastAction::Finish(Err(err))
                    },
                    WaitAction::SleepThenPoll => {
                        attempt.stage = BroadcastStage::AwaitingInclusion(w);
                        BroadcastAction::SleepThenPoll
                    },
                }
            },
        }
    }
}
} // verus!
