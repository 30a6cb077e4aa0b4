//! One timed run: a producer that sends until the deadline, and a consumer
//! that polls the pending signatures and reports the metric at the end.
//!
//! Both are state machines. The caller owns the clock and the connection: it
//! asks what to do next, does it, and hands back what it saw.

use crate::client::counts_as_confirmed;
use crate::error::BenchError;
use crate::metrics::{Metric, MetricView};
use crate::pending::{
    copy_of, lemma_index_of_unique, lemma_push_new, lemma_without, position, texts, without,
};
use crate::time::TimeSpan;
use vstd::prelude::*;

verus! {

/// How long the producer sends, and how long after that the consumer still
/// waits for confirmations of what is pending.
#[derive(Clone, Copy, Debug, PartialEq, Eq, Structural)]
pub struct RunConfig {
    pub bench_duration: TimeSpan,
    pub grace: TimeSpan,
}

/// What the producer does next.
#[derive(Clone, Copy, Debug, PartialEq, Eq, Structural)]
pub enum ProducerAction {
    /// Build one transaction and submit it.
    Send,
    /// Stop sending and close the handoff to the consumer.
    Close,
}

/// Whether a run that has lasted `elapsed` has reached a deadline of
/// `duration`, both in nanoseconds.
pub open spec fn deadline_reached(elapsed: nat, duration: nat) -> bool {
    elapsed >= duration
}

/// The sending side of a run. It counts the transactions that the server
/// accepted.
#[derive(Debug)]
pub struct Producer {
    txs_sent: u64,
}

impl Producer {
    /// How many transactions were sent.
    pub closed spec fn sent(&self) -> nat {
        self.txs_sent as nat
    }

    /// A producer that has sent nothing.
    pub fn new() -> (producer: Producer)
        ensures
            producer.sent() == 0,
    {
        Producer { txs_sent: 0 }
    }

    /// How many transactions were sent.
    pub fn txs_sent(&self) -> (count: u64)
        ensures
            count == self.sent(),
    {
        self.txs_sent
    }

    /// Decides at the head of each round, `elapsed` after the producer
    /// started: it closes once the deadline is reached and sends before.
    pub fn next_action(&self, elapsed: &TimeSpan, config: &RunConfig) -> (action: ProducerAction)
        ensures
            action == if deadline_reached(elapsed@, config.bench_duration@) {
                ProducerAction::Close
            } else {
                ProducerAction::Send
            },
    {
        if elapsed.at_least(&config.bench_duration) {
            ProducerAction::Close
        } else {
            ProducerAction::Send
        }
    }

    /// Takes the server's reply to the submission of the transaction signed
    /// `own`: the signature it returned, or nothing where the submission
    /// failed. A returned signature equal to `own` is counted and handed on
    /// to the consumer. Anything else fails the run.
    pub fn on_send_reply(&mut self, own: &String, reply: Option<String>) -> (res: Result<
        String,
        BenchError,
    >)
        requires
            old(self).sent() < u64::MAX,
        ensures
            res.is_ok() <==> (reply.is_some() && reply.unwrap()@ == own@),
            res.is_ok() ==> res.unwrap()@ == own@ && final(self).sent() == old(self).sent() + 1,
            res.is_err() ==> res == Err::<String, BenchError>(BenchError::Send),
            res.is_err() ==> final(self).sent() == old(self).sent(),
    {
        match reply {
            Some(returned) => {
                if returned.eq(own) {
                    self.txs_sent = self.txs_sent + 1;
                    Ok(returned)
                } else {
                    Err(BenchError::Send)
                }
            },
            None => Err(BenchError::Send),
        }
    }
}

/// The consumer's state as two lists of signatures: those still pending, in
/// the order in which they were seen, and those confirmed, in the order in
/// which they were confirmed.
pub struct ConsumerView {
    pub pending: Seq<Seq<char>>,
    pub confirmed: Seq<Seq<char>>,
}

impl ConsumerView {
    /// The state before anything was seen.
    pub open spec fn empty() -> ConsumerView {
        ConsumerView { pending: Seq::empty(), confirmed: Seq::empty() }
    }

    /// Whether `sig` was seen before.
    pub open spec fn knows(self, sig: Seq<char>) -> bool {
        self.pending.contains(sig) || self.confirmed.contains(sig)
    }

    /// No signature stands twice in a list or in both lists.
    pub open spec fn distinct(self) -> bool {
        &&& self.pending.no_duplicates()
        &&& self.confirmed.no_duplicates()
        &&& forall|sig: Seq<char>|
            !(#[trigger] self.pending.contains(sig) && self.confirmed.contains(sig))
    }

    /// The state after `sig` came from the producer: a new signature becomes
    /// pending, a known one changes nothing.
    pub open spec fn observe(self, sig: Seq<char>) -> ConsumerView {
        if self.knows(sig) {
            self
        } else {
            ConsumerView { pending: self.pending.push(sig), confirmed: self.confirmed }
        }
    }

    /// The state after the server was asked about `sig` and answered
    /// `confirmed`: a pending signature that is confirmed moves to the
    /// confirmed ones, anything else changes nothing.
    pub open spec fn confirm(self, sig: Seq<char>, confirmed: bool) -> ConsumerView {
        if confirmed && self.pending.contains(sig) {
            ConsumerView {
                pending: without(self.pending, sig),
                confirmed: self.confirmed.push(sig),
            }
        } else {
            self
        }
    }

    /// The metric of a run that ends in this state after `elapsed`
    /// nanoseconds.
    pub open spec fn metric(self, elapsed: nat) -> MetricView {
        MetricView {
            time_elapsed: elapsed,
            txs_sent: self.pending.len() + self.confirmed.len(),
            txs_confirmed: self.confirmed.len(),
            txs_un_confirmed: self.pending.len(),
        }
    }

    /// Whether the consumer ends the run: the producer has closed the handoff
    /// and all it handed on was seen, the deadline is reached, and either
    /// nothing is pending or the grace time is over as well.
    pub open spec fn should_stop(
        self,
        handoff_closed: bool,
        elapsed: nat,
        duration: nat,
        grace: nat,
    ) -> bool {
        &&& handoff_closed
        &&& deadline_reached(elapsed, duration)
        &&& (self.pending.len() == 0 || deadline_reached(elapsed, duration + grace))
    }
}

/// The confirming side of a run. It owns the pending signatures.
#[derive(Debug)]
pub struct Consumer {
    pending: Vec<String>,
    confirmed: Vec<String>,
}

impl View for Consumer {
    type V = ConsumerView;

    closed spec fn view(&self) -> ConsumerView {
        ConsumerView { pending: texts(self.pending@), confirmed: texts(self.confirmed@) }
    }
}

impl Consumer {
    /// What holds of every consumer: no signature is held twice, and the
    /// number of signatures can be held in 64 bits.
    pub open spec fn wf(&self) -> bool {
        self@.distinct() && self@.pending.len() + self@.confirmed.len() <= u64::MAX
    }

    /// A consumer that has seen nothing.
    pub fn new() -> (consumer: Consumer)
        ensures
            consumer.wf(),
            consumer@ == ConsumerView::empty(),
    {
        let consumer = Consumer { pending: Vec::new(), confirmed: Vec::new() };
        assert(consumer@.pending =~= Seq::empty());
        assert(consumer@.confirmed =~= Seq::empty());
        consumer
    }

    /// How many distinct signatures came from the producer.
    pub fn txs_sent(&self) -> (count: u64)
        requires
            self.wf(),
        ensures
            count == self@.pending.len() + self@.confirmed.len(),
    {
        self.pending.len() as u64 + self.confirmed.len() as u64
    }

    /// How many signatures were confirmed.
    pub fn txs_confirmed(&self) -> (count: u64)
        requires
            self.wf(),
        ensures
            count == self@.confirmed.len(),
    {
        self.confirmed.len() as u64
    }

    /// How many signatures are pending.
    pub fn txs_un_confirmed(&self) -> (count: u64)
        requires
            self.wf(),
        ensures
            count == self@.pending.len(),
    {
        self.pending.len() as u64
    }

    /// Takes a signature from the producer. Returns whether it was new.
    pub fn observe(&mut self, sig: String) -> (fresh: bool)
        requires
            old(self).wf(),
            old(self)@.pending.len() + old(self)@.confirmed.len() < u64::MAX,
        ensures
            final(self).wf(),
            final(self)@ == old(self)@.observe(sig@),
            fresh == !old(self)@.knows(sig@),
    {
        if position(&self.pending, &sig).is_some() {
            return false;
        }
        if position(&self.confirmed, &sig).is_some() {
            return false;
        }
        proof {
            lemma_push_new(self@.pending, sig@);
            assert(texts(self.pending@.push(sig)) =~= texts(self.pending@).push(sig@));
        }
        self.pending.push(sig);
        true
    }

    /// The pending signatures, in the order in which they were seen: what
    /// the next round of polls asks the server about.
    pub fn snapshot(&self) -> (sigs: Vec<String>)
        ensures
            texts(sigs@) == self@.pending,
    {
        copy_of(&self.pending)
    }

    /// Takes the outcome of one poll: whether the server called `sig`
    /// confirmed. Returns whether `sig` left the pending signatures.
    pub fn on_confirm(&mut self, sig: &String, confirmed: bool) -> (moved: bool)
        requires
            old(self).wf(),
        ensures
            final(self).wf(),
            final(self)@ == old(self)@.confirm(sig@, confirmed),
            moved == (confirmed && old(self)@.pending.contains(sig@)),
    {
        if !confirmed {
            return false;
        }
        match position(&self.pending, sig) {
            None => false,
            Some(at) => {
                proof {
                    let before = self@.pending;
                    assert(before[at as int] == sig@);
                    lemma_index_of_unique(before, at as int);
                    lemma_without(before, sig@);
                    lemma_push_new(self@.confirmed, sig@);
                    assert(texts(self.pending@.remove(at as int)) =~= without(before, sig@));
                }
                let taken: String = self.pending.remove(at);
                proof {
                    assert(taken@ == sig@);
                    assert(texts(self.confirmed@.push(taken)) =~= texts(self.confirmed@).push(
                        sig@,
                    ));
                }
                self.confirmed.push(taken);
                true
            },
        }
    }

    /// Whether the run ends now, `elapsed` after the consumer started.
    /// `handoff_closed` says that the producer has closed the handoff and
    /// that every signature it handed on was taken.
    pub fn should_stop(&self, handoff_closed: bool, elapsed: &TimeSpan, config: &RunConfig) -> (stop:
        bool)
        ensures
            stop == self@.should_stop(
                handoff_closed,
                elapsed@,
                config.bench_duration@,
                config.grace@,
            ),
    {
        if !handoff_closed || !elapsed.at_least(&config.bench_duration) {
            return false;
        }
        if self.pending.len() == 0 {
            return true;
        }
        let waited: TimeSpan = elapsed.saturating_sub(&config.bench_duration);
        waited.at_least(&config.grace)
    }

    /// The metric of a run that ends now, `elapsed` after the consumer
    /// started: every signature seen counts as sent, and is either confirmed
    /// or still pending.
    pub fn metric(&self, elapsed: TimeSpan) -> (metric: Metric)
        requires
            self.wf(),
        ensures
            metric@ == self@.metric(elapsed@),
            metric.time_elapsed == elapsed,
            metric@.balanced(),
            metric.txs_confirmed <= metric.txs_sent,
    {
        Metric {
            time_elapsed: elapsed,
            txs_sent: self.txs_sent(),
            txs_confirmed: self.txs_confirmed(),
            txs_un_confirmed: self.txs_un_confirmed(),
        }
    }

    /// The metric of the run if it ends now, and nothing if it goes on.
    pub fn finish(&self, handoff_closed: bool, elapsed: TimeSpan, config: &RunConfig) -> (done:
        Option<Metric>)
        requires
            self.wf(),
        ensures
            done.is_some() <==> self@.should_stop(
                handoff_closed,
                elapsed@,
                config.bench_duration@,
                config.grace@,
            ),
            done.is_some() ==> done.unwrap()@ == self@.metric(elapsed@),
            done.is_some() ==> done.unwrap().time_elapsed@ >= config.bench_duration@,
    {
        if self.should_stop(handoff_closed, &elapsed, config) {
            Some(self.metric(elapsed))
        } else {
            None
        }
    }
}

/// What the consumer is told while a run lasts.
pub enum ConsumerEvent {
    /// A signature came from the producer.
    Observed(Seq<char>),
    /// The server was asked about a signature and called it confirmed or not.
    Polled(Seq<char>, bool),
}

/// The state that a consumer reaches from the empty one by taking `events`
/// in their order.
pub open spec fn replay(events: Seq<ConsumerEvent>) -> ConsumerView
    decreases events.len(),
{
    if events.len() == 0 {
        ConsumerView::empty()
    } else {
        let before = replay(events.drop_last());
        match events.last() {
            ConsumerEvent::Observed(sig) => before.observe(sig),
            ConsumerEvent::Polled(sig, confirmed) => before.confirm(sig, confirmed),
        }
    }
}

/// Taking a signature from the producer keeps every signature single.
pub proof fn lemma_observe_distinct(state: ConsumerView, sig: Seq<char>)
    requires
        state.distinct(),
    ensures
        state.observe(sig).distinct(),
{
    if !state.knows(sig) {
        lemma_push_new(state.pending, sig);
    }
}

/// Taking the outcome of a poll keeps every signature single, and a
/// signature that was confirmed is no longer pending.
pub proof fn lemma_confirm_distinct(state: ConsumerView, sig: Seq<char>, confirmed: bool)
    requires
        state.distinct(),
    ensures
        state.confirm(sig, confirmed).distinct(),
        confirmed ==> !state.confirm(sig, confirmed).pending.contains(sig),
        state.confirm(sig, confirmed).pending.len() + state.confirm(sig, confirmed).confirmed.len()
            == state.pending.len() + state.confirmed.len(),
{
    if confirmed && state.pending.contains(sig) {
        lemma_without(state.pending, sig);
        lemma_push_new(state.confirmed, sig);
    }
}

/// Whatever the consumer was told during a run, at its end no signature is
/// both confirmed and pending or counted twice, every transaction sent is
/// either confirmed or un-confirmed, and no more are confirmed than were
/// sent.
pub proof fn lemma_run_invariants(events: Seq<ConsumerEvent>, elapsed: nat)
    ensures
        replay(events).distinct(),
        forall|sig: Seq<char>|
            !(#[trigger] replay(events).pending.contains(sig) && replay(events).confirmed.contains(
                sig,
            )),
        replay(events).metric(elapsed).balanced(),
        replay(events).metric(elapsed).txs_confirmed <= replay(events).metric(elapsed).txs_sent,
    decreases events.len(),
{
    if events.len() > 0 {
        lemma_run_invariants(events.drop_last(), elapsed);
        let before = replay(events.drop_last());
        match events.last() {
            ConsumerEvent::Observed(sig) => lemma_observe_distinct(before, sig),
            ConsumerEvent::Polled(sig, confirmed) => lemma_confirm_distinct(before, sig, confirmed),
        }
    }
}

/// Every signature that the consumer holds at the end of a run came from the
/// producer, and every confirmed one was called confirmed by the server.
pub proof fn lemma_run_origin(events: Seq<ConsumerEvent>, sig: Seq<char>)
    ensures
        replay(events).knows(sig) ==> exists|i: int|
            0 <= i < events.len() && #[trigger] events[i] == ConsumerEvent::Observed(sig),
        replay(events).confirmed.contains(sig) ==> exists|i: int|
            0 <= i < events.len() && #[trigger] events[i] == ConsumerEvent::Polled(sig, true),
    decreases events.len(),
{
    if events.len() > 0 {
        let earlier = events.drop_last();
        let last = events.len() - 1;
        lemma_run_origin(earlier, sig);
        lemma_run_invariants(earlier, 0);
        let before = replay(earlier);
        let after = replay(events);
        assert(forall|i: int| 0 <= i < earlier.len() ==> earlier[i] == events[i]);
        match events.last() {
            ConsumerEvent::Observed(seen) => {
                if !before.knows(seen) {
                    lemma_push_new(before.pending, seen);
                }
                if after.knows(sig) && !before.knows(sig) {
                    assert(seen == sig);
                    assert(events[last] == ConsumerEvent::Observed(sig));
                }
            },
            ConsumerEvent::Polled(asked, confirmed) => {
                if confirmed && before.pending.contains(asked) {
                    lemma_without(before.pending, asked);
                    lemma_push_new(before.confirmed, asked);
                    if after.confirmed.contains(sig) && !before.confirmed.contains(sig) {
                        assert(asked == sig);
                        assert(events[last] == ConsumerEvent::Polled(sig, true));
                    }
                }
            },
        }
        if replay(events).knows(sig) {
            if before.knows(sig) {
                let i = choose|i: int|
                    0 <= i < earlier.len() && #[trigger] earlier[i] == ConsumerEvent::Observed(sig);
                assert(events[i] == ConsumerEvent::Observed(sig));
            }
        }
        if replay(events).confirmed.contains(sig) {
            if before.confirmed.contains(sig) {
                let i = choose|i: int|
                    0 <= i < earlier.len() && #[trigger] earlier[i] == ConsumerEvent::Polled(
                        sig,
                        true,
                    );
                assert(events[i] == ConsumerEvent::Polled(sig, true));
            }
        }
    }
}

/// A signature that was confirmed stays confirmed whatever the consumer is
/// told later, and does not become pending again.
pub proof fn lemma_confirmed_for_good(
    events: Seq<ConsumerEvent>,
    later: Seq<ConsumerEvent>,
    sig: Seq<char>,
)
    requires
        replay(events).confirmed.contains(sig),
    ensures
        replay(events + later).confirmed.contains(sig),
        !replay(events + later).pending.contains(sig),
    decreases later.len(),
{
    lemma_run_invariants(events + later, 0);
    if later.len() == 0 {
        assert(events + later =~= events);
    } else {
        lemma_confirmed_for_good(events, later.drop_last(), sig);
        assert((events + later).drop_last() =~= events + later.drop_last());
        assert((events + later).last() == later.last());
        let before = replay(events + later.drop_last());
        lemma_run_invariants(events + later.drop_last(), 0);
        match later.last() {
            ConsumerEvent::Observed(seen) => {},
            ConsumerEvent::Polled(asked, confirmed) => {
                if confirmed && before.pending.contains(asked) {
                    lemma_push_new(before.confirmed, asked);
                }
            },
        }
    }
}

/// The state after one round of polls: the server was asked about each of
/// `sigs` in turn and its answers counted as `answers` say.
pub open spec fn poll_round(
    state: ConsumerView,
    sigs: Seq<Seq<char>>,
    answers: Seq<bool>,
) -> ConsumerView
    recommends
        sigs.len() == answers.len(),
    decreases sigs.len(),
{
    if sigs.len() == 0 {
        state
    } else {
        poll_round(state, sigs.drop_last(), answers.drop_last()).confirm(
            sigs.last(),
            answers.last(),
        )
    }
}

/// A poll that failed on the way, or that the server answered with "not
/// yet", changes nothing: the signature stays pending and is asked about in
/// the next round.
pub proof fn lemma_failed_poll_changes_nothing(state: ConsumerView, sig: Seq<char>)
    ensures
        state.confirm(sig, counts_as_confirmed(None)) == state,
        state.confirm(sig, counts_as_confirmed(Some(false))) == state,
{
}

/// After the first `k` polls of a round over the pending signatures, those
/// among the first `k` that counted as confirmed are no longer pending and
/// all others still are; nothing else became pending and nothing was lost.
pub proof fn lemma_poll_round_prefix(state: ConsumerView, answers: Seq<bool>, k: int)
    requires
        state.distinct(),
        answers.len() == state.pending.len(),
        0 <= k <= state.pending.len(),
    ensures
        poll_round(state, state.pending.take(k), answers.take(k)).distinct(),
        poll_round(state, state.pending.take(k), answers.take(k)).pending.len() + poll_round(
            state,
            state.pending.take(k),
            answers.take(k),
        ).confirmed.len() == state.pending.len() + state.confirmed.len(),
        forall|j: int|
            0 <= j < state.pending.len() ==> (poll_round(
                state,
                state.pending.take(k),
                answers.take(k),
            ).pending.contains(#[trigger] state.pending[j]) <==> !(j < k && answers[j])),
        forall|sig: Seq<char>| #[trigger]
            poll_round(state, state.pending.take(k), answers.take(k)).pending.contains(sig)
                ==> state.pending.contains(sig),
    decreases k,
{
    let sigs = state.pending.take(k);
    let heard = answers.take(k);
    let after = poll_round(state, sigs, heard);
    if k == 0 {
        assert(after == state);
        assert forall|j: int| 0 <= j < state.pending.len() implies after.pending.contains(
            #[trigger] state.pending[j],
        ) by {}
    } else {
        lemma_poll_round_prefix(state, answers, k - 1);
        assert(sigs.drop_last() =~= state.pending.take(k - 1));
        assert(heard.drop_last() =~= answers.take(k - 1));
        let before = poll_round(state, state.pending.take(k - 1), answers.take(k - 1));
        let asked = state.pending[k - 1];
        assert(sigs.last() == asked);
        assert(heard.last() == answers[k - 1]);
        assert(after == before.confirm(asked, answers[k - 1]));
        assert(before.pending.contains(asked));
        lemma_confirm_distinct(before, asked, answers[k - 1]);
        if answers[k - 1] {
            lemma_without(before.pending, asked);
            assert forall|j: int| 0 <= j < state.pending.len() implies (after.pending.contains(
                #[trigger] state.pending[j],
            ) <==> !(j < k && answers[j])) by {
                if j != k - 1 {
                    assert(state.pending[j] != asked);
                }
            }
        }
    }
}

/// After a round of polls over everything pending, exactly those signatures
/// are still pending whose poll did not count as confirmed; each of the
/// others is counted as confirmed. So the run ends with as many
/// un-confirmed transactions as the server left unanswered or denied in the
/// last round.
pub proof fn lemma_poll_round(state: ConsumerView, answers: Seq<bool>)
    requires
        state.distinct(),
        answers.len() == state.pending.len(),
    ensures
        poll_round(state, state.pending, answers).distinct(),
        poll_round(state, state.pending, answers).pending.len() + poll_round(
            state,
            state.pending,
            answers,
        ).confirmed.len() == state.pending.len() + state.confirmed.len(),
        forall|j: int|
            0 <= j < state.pending.len() ==> (poll_round(
                state,
                state.pending,
                answers,
            ).pending.contains(#[trigger] state.pending[j]) <==> !answers[j]),
        forall|sig: Seq<char>| #[trigger]
            poll_round(state, state.pending, answers).pending.contains(sig) ==> exists|j: int|
                0 <= j < state.pending.len() && state.pending[j] == sig && !answers[j],
{
    let k = state.pending.len() as int;
    lemma_poll_round_prefix(state, answers, k);
    assert(state.pending.take(k) =~= state.pending);
    assert(answers.take(k) =~= answers);
    let after = poll_round(state, state.pending, answers);
    assert forall|sig: Seq<char>| #[trigger] after.pending.contains(sig) implies exists|j: int|
        0 <= j < state.pending.len() && state.pending[j] == sig && !answers[j] by {
        assert(state.pending.contains(sig));
        let j = choose|j: int| 0 <= j < state.pending.len() && state.pending[j] == sig;
        assert(after.pending.contains(state.pending[j]));
    }
}

/// Where the server calls every pending transaction confirmed, a round of
/// polls leaves nothing pending: all that was sent is confirmed, and the
/// throughput is positive if anything was sent and time has passed.
pub proof fn lemma_perfect_round(state: ConsumerView, answers: Seq<bool>, elapsed: nat)
    requires
        state.distinct(),
        answers.len() == state.pending.len(),
        forall|j: int| 0 <= j < answers.len() ==> answers[j],
    ensures
        poll_round(state, state.pending, answers).pending.len() == 0,
        poll_round(state, state.pending, answers).metric(elapsed).txs_un_confirmed == 0,
        poll_round(state, state.pending, answers).metric(elapsed).txs_confirmed == state.metric(
            elapsed,
        ).txs_sent,
        poll_round(state, state.pending, answers).metric(elapsed).txs_sent == state.metric(
            elapsed,
        ).txs_sent,
        elapsed > 0 && state.metric(elapsed).txs_sent > 0 ==> poll_round(
            state,
            state.pending,
            answers,
        ).metric(elapsed).tps_micros() > 0,
{
    lemma_poll_round(state, answers);
    let after = poll_round(state, state.pending, answers);
    if after.pending.len() > 0 {
        assert(after.pending.contains(after.pending[0]));
    }
    crate::metrics::lemma_tps_zero(after.metric(elapsed));
}

/// Whether the event is a poll that counted as confirmed.
pub open spec fn is_confirmation(event: ConsumerEvent) -> bool {
    match event {
        ConsumerEvent::Polled(_, confirmed) => confirmed,
        ConsumerEvent::Observed(_) => false,
    }
}

/// Where no poll of a run counted as confirmed, nothing is confirmed at its
/// end: all that was sent is un-confirmed and the throughput is zero.
pub proof fn lemma_idle_server(events: Seq<ConsumerEvent>, elapsed: nat)
    requires
        forall|i: int| 0 <= i < events.len() ==> !is_confirmation(#[trigger] events[i]),
    ensures
        replay(events).confirmed.len() == 0,
        replay(events).metric(elapsed).txs_confirmed == 0,
        replay(events).metric(elapsed).txs_un_confirmed == replay(events).metric(elapsed).txs_sent,
        replay(events).metric(elapsed).tps_micros() == 0,
{
    let state = replay(events);
    if state.confirmed.len() > 0 {
        let sig = state.confirmed[0];
        assert(state.confirmed.contains(sig));
        lemma_run_origin(events, sig);
        let i = choose|i: int|
            0 <= i < events.len() && #[trigger] events[i] == ConsumerEvent::Polled(sig, true);
        assert(!is_confirmation(events[i]));
    }
    crate::metrics::lemma_tps_zero(state.metric(elapsed));
}

/// Before a deadline that lies in the future the producer sends, and the
/// first signature that reaches the consumer counts as sent.
pub proof fn lemma_first_send_counts(sig: Seq<char>, elapsed: nat, duration: nat, later: nat)
    requires
        elapsed < duration,
    ensures
        !deadline_reached(elapsed, duration),
        ConsumerView::empty().observe(sig).metric(later).txs_sent == 1,
        ConsumerView::empty().observe(sig).pending.contains(sig),
{
    let grown = ConsumerView::empty().pending.push(sig);
    assert(grown[0] == sig);
}

/// With a duration of zero the producer closes at its first round whatever
/// the clock says, and a consumer that was told nothing reports that nothing
/// was sent or confirmed, with a throughput of zero.
pub proof fn lemma_zero_duration(elapsed: nat)
    ensures
        deadline_reached(elapsed, 0),
        ConsumerView::empty().metric(elapsed).txs_sent == 0,
        ConsumerView::empty().metric(elapsed).txs_confirmed == 0,
        ConsumerView::empty().metric(elapsed).txs_un_confirmed == 0,
        ConsumerView::empty().metric(elapsed).tps_micros() == 0,
{
    crate::metrics::lemma_tps_zero(ConsumerView::empty().metric(elapsed));
}

/// A run never ends before its deadline.
pub proof fn lemma_stop_after_deadline(
    state: ConsumerView,
    handoff_closed: bool,
    elapsed: nat,
    duration: nat,
    grace: nat,
)
    requires
        state.should_stop(handoff_closed, elapsed, duration, grace),
    ensures
        state.metric(elapsed).time_elapsed >= duration,
        handoff_closed,
{
}

} // verus!
