//! The shared environment ("blackboard") for stigmergic coordination.
//!
//! Producers deposit payloads wrapped in decaying signals; consumers sense
//! them and receive the payload only while the signal is still above its
//! kind's threshold. Each kind has one slot, overwritten unconditionally by
//! every deposit; sensing never mutates a slot — a stale envelope is left in
//! place for the next deposit to replace. Every deposit and every successful
//! or decayed sense emits a best-effort event into a bounded buffer that an
//! observer may drain; a full buffer drops the new event rather than block.
//!
//! Every operation takes the reading instant explicitly (the `_at` form) and
//! is specified exactly against the ghost `BoardModel`; the clock-reading
//! forms promise the same for some instant the wall clock supplied.

use crate::config::Config;
use crate::decay::{elapsed_ms_of, lemma_strength_at_zero, strength_spec, SCALE};
use crate::physics::{all_kinds, now_millis, Pheromone, PheromonePayload, PheromoneType};
use vstd::map::*;
use vstd::prelude::*;

verus! {

/// Capacity of the event buffer; when it is full, new events are dropped.
pub const EVENT_CAPACITY: usize = 100;

/// What happened to a signal slot, as reported to observers.
#[derive(Clone, Copy, Debug, PartialEq, Eq, Structural)]
pub enum PheromoneAction {
    /// A producer wrote a fresh envelope.
    Deposited,
    /// A consumer sensed a fresh envelope and received its payload.
    Sniffed,
    /// A consumer found the envelope decayed below threshold.
    Decayed,
}

/// Event emitted when a slot changes or is read: which kind (by label), at
/// what intensity, and what happened.
#[derive(Debug)]
pub struct PheromoneEvent {
    pub pheromone_type: String,
    pub intensity: u64,
    pub action: PheromoneAction,
}

/// Operational metrics one worker publishes about itself, for dashboards;
/// carried through the shared store by the embedding program, not read by
/// the signal layer itself.
#[derive(Clone, Debug)]
pub struct AgentMetrics {
    pub name: String,
    pub is_active: bool,
    pub action_count: u64,
    pub last_action: String,
    pub last_action_time: Option<String>,
}

/// Ghost image of a stored envelope: the signal's numbers, its label, and
/// the payload bytes.
#[verifier::ext_equal]
pub ghost struct EnvelopeModel {
    pub initial_intensity: u64,
    pub decay_rate: u64,
    pub created_at_ms: u64,
    pub label: Seq<char>,
    pub data: Seq<u8>,
}

/// Ghost image of an emitted event.
#[verifier::ext_equal]
pub ghost struct EventModel {
    pub label: Seq<char>,
    pub intensity: u64,
    pub action: PheromoneAction,
}

/// Ghost image of the whole blackboard: the policy, one slot per kind, and
/// the pending event buffer.
#[verifier::ext_equal]
pub ghost struct BoardModel {
    pub config: Config,
    pub slots: Map<PheromoneType, Option<EnvelopeModel>>,
    pub events: Seq<EventModel>,
}

/// The slot a model holds for a kind; an unmapped kind holds nothing.
pub open spec fn slot_of(m: BoardModel, kind: PheromoneType) -> Option<EnvelopeModel> {
    if m.slots.contains_key(kind) {
        m.slots[kind]
    } else {
        Option::None
    }
}

/// A stored envelope's signal strength at an instant.
pub open spec fn env_strength_at(e: EnvelopeModel, now_ms: u64) -> nat {
    strength_spec(
        e.initial_intensity as nat,
        e.decay_rate as nat,
        elapsed_ms_of(e.created_at_ms, now_ms),
    )
}

/// Appending to the bounded event buffer: kept if there is room, dropped
/// (the new event, not the old ones) if not.
pub open spec fn emit_model(events: Seq<EventModel>, e: EventModel) -> Seq<EventModel> {
    if events.len() < EVENT_CAPACITY {
        events.push(e)
    } else {
        events
    }
}

/// The envelope a deposit of `data` under `kind` at `now_ms` creates: full
/// strength, the kind's configured decay rate, stamped with the instant.
pub open spec fn fresh_envelope_model(
    kind: PheromoneType,
    c: Config,
    data: Seq<u8>,
    now_ms: u64,
) -> EnvelopeModel {
    EnvelopeModel {
        initial_intensity: SCALE,
        decay_rate: kind.decay_rate_spec(c),
        created_at_ms: now_ms,
        label: kind.label_spec(),
        data,
    }
}

/// The board after a deposit: the kind's slot overwritten unconditionally
/// with a fresh envelope, a `Deposited` event emitted at full intensity,
/// everything else untouched.
pub open spec fn deposit_model(
    m: BoardModel,
    kind: PheromoneType,
    data: Seq<u8>,
    now_ms: u64,
) -> BoardModel {
    BoardModel {
        config: m.config,
        slots: m.slots.insert(kind, Option::Some(fresh_envelope_model(kind, m.config, data, now_ms))),
        events: emit_model(
            m.events,
            EventModel { label: kind.label_spec(), intensity: SCALE, action: PheromoneAction::Deposited },
        ),
    }
}

/// What sensing a kind at an instant returns: nothing from an empty slot,
/// the payload while the signal is strictly above the kind's threshold,
/// nothing once it has decayed to or below it.
pub open spec fn sniff_data_model(m: BoardModel, kind: PheromoneType, now_ms: u64) -> Option<
    Seq<u8>,
> {
    match slot_of(m, kind) {
        Option::None => Option::None,
        Option::Some(e) => if env_strength_at(e, now_ms) > kind.threshold_spec(m.config) {
            Option::Some(e.data)
        } else {
            Option::None
        },
    }
}

/// The event buffer after sensing: untouched for an empty slot, otherwise a
/// `Sniffed` or `Decayed` event at the read intensity.
pub open spec fn sniff_events_model(m: BoardModel, kind: PheromoneType, now_ms: u64) -> Seq<
    EventModel,
> {
    match slot_of(m, kind) {
        Option::None => m.events,
        Option::Some(e) => {
            let intensity = env_strength_at(e, now_ms) as u64;
            let action = if env_strength_at(e, now_ms) > kind.threshold_spec(m.config) {
                PheromoneAction::Sniffed
            } else {
                PheromoneAction::Decayed
            };
            emit_model(m.events, EventModel { label: kind.label_spec(), intensity, action })
        },
    }
}

/// The numeric intensity of a kind's slot at an instant: zero when absent,
/// the signal's strength otherwise, with no threshold gating.
pub open spec fn intensity_model(m: BoardModel, kind: PheromoneType, now_ms: u64) -> nat {
    match slot_of(m, kind) {
        Option::None => 0,
        Option::Some(e) => env_strength_at(e, now_ms),
    }
}

/// Every kind's slot empty.
pub open spec fn empty_slots() -> Map<PheromoneType, Option<EnvelopeModel>> {
    map![
        PheromoneType::PriceFreshness => Option::None,
        PheromoneType::RebalanceOpportunity => Option::None,
        PheromoneType::ExecutionPermit => Option::None,
        PheromoneType::TradeExecuted => Option::None,
    ]
}

/// The board after `clear_all`: every slot empty, policy and pending events
/// untouched.
pub open spec fn clear_model(m: BoardModel) -> BoardModel {
    BoardModel { config: m.config, slots: empty_slots(), events: m.events }
}

/// The policy is usable when every kind's decay rate is positive; a zero
/// rate would make a signal that never fades and is rejected at
/// construction time.
pub open spec fn policy_ok(c: Config) -> bool {
    &&& 1 <= c.pheromones.price_freshness_decay
    &&& 1 <= c.pheromones.rebalance_opportunity_decay
    &&& 1 <= c.pheromones.execution_permit_decay
    &&& 1 <= c.pheromones.trade_executed_decay
}

/// Rejection of an unusable policy at construction time: the named kind has
/// no positive decay rate.
#[derive(Clone, Copy, Debug, PartialEq, Eq, Structural)]
pub struct PolicyError {
    pub kind: PheromoneType,
}

/// Ghost image of an event as the observer sees it.
pub open spec fn event_model(e: PheromoneEvent) -> EventModel {
    EventModel { label: e.pheromone_type@, intensity: e.intensity, action: e.action }
}

/// Ghost image of a drained event list.
pub open spec fn events_view(s: Seq<PheromoneEvent>) -> Seq<EventModel> {
    s.map_values(|e: PheromoneEvent| event_model(e))
}

/// An intensity listing is right for an instant when it names every kind in
/// registry-declaration order with that kind's intensity at the instant.
pub open spec fn all_intensities_prop(m: BoardModel, r: Seq<(String, u64)>, now_ms: u64) -> bool {
    forall|i: int|
        0 <= i < r.len() ==> {
            &&& (#[trigger] r[i]).0@ == all_kinds()[i].label_spec()
            &&& r[i].1 == intensity_model(m, all_kinds()[i], now_ms)
        }
}

/// Ghost image of a payload option: just the bytes.
pub open spec fn data_view(r: Option<Vec<u8>>) -> Option<Seq<u8>> {
    match r {
        Option::None => Option::None,
        Option::Some(v) => Option::Some(v@),
    }
}

/// Copy a byte vector; consumers receive a copy of the stored payload,
/// never a reference into the store.
fn copy_bytes(v: &Vec<u8>) -> (r: Vec<u8>)
    ensures
        r@ == v@,
{
    let n: usize = v.len();
    let mut out: Vec<u8> = Vec::new();
    let mut i: usize = 0;
    while i < n
        invariant
            i <= n,
            n == v@.len(),
            out@ =~= v@.subrange(0, i as int),
        decreases n - i,
    {
        out.push(v[i]);
        i = i + 1;
    }
    proof {
        assert(out@ =~= v@);
    }
    out
}

/// The coordination surface: one envelope slot per signal kind, the policy
/// resolved at construction, and the bounded buffer of pending events.
pub struct Blackboard {
    config: Config,
    slot_price_freshness: Option<PheromonePayload<Vec<u8>>>,
    slot_rebalance_opportunity: Option<PheromonePayload<Vec<u8>>>,
    slot_execution_permit: Option<PheromonePayload<Vec<u8>>>,
    slot_trade_executed: Option<PheromonePayload<Vec<u8>>>,
    events: Vec<PheromoneEvent>,
}

/// Ghost image of a stored envelope option.
pub open spec fn env_model_opt(o: Option<PheromonePayload<Vec<u8>>>) -> Option<EnvelopeModel> {
    match o {
        Option::None => Option::None,
        Option::Some(p) => Option::Some(
            EnvelopeModel {
                initial_intensity: p.pheromone.initial_intensity,
                decay_rate: p.pheromone.decay_rate,
                created_at_ms: p.pheromone.created_at_ms,
                label: p.pheromone.label@,
                data: p.data@,
            },
        ),
    }
}

impl View for Blackboard {
    type V = BoardModel;

    closed spec fn view(&self) -> BoardModel {
        BoardModel {
            config: self.config,
            slots: map![
                PheromoneType::PriceFreshness => env_model_opt(self.slot_price_freshness),
                PheromoneType::RebalanceOpportunity => env_model_opt(self.slot_rebalance_opportunity),
                PheromoneType::ExecutionPermit => env_model_opt(self.slot_execution_permit),
                PheromoneType::TradeExecuted => env_model_opt(self.slot_trade_executed),
            ],
            events: events_view(self.events@),
        }
    }
}

impl Blackboard {
    /// A live board has a usable policy.
    pub open spec fn wf(self) -> bool {
        policy_ok(self@.config)
    }

    /// Build a board over the supplied policy, every slot empty. Fails — at
    /// construction, never per call — exactly when some kind's decay rate is
    /// not positive, naming such a kind.
    pub fn new(config: Config) -> (r: Result<Blackboard, PolicyError>)
        ensures
            r is Ok <==> policy_ok(config),
            r matches Ok(b) ==> {
                &&& b.wf()
                &&& b@.config == config
                &&& b@.slots == empty_slots()
                &&& b@.events == Seq::<EventModel>::empty()
            },
            r matches Err(e) ==> e.kind.decay_rate_spec(config) == 0,
    {
        if config.pheromones.price_freshness_decay == 0 {
            return Result::Err(PolicyError { kind: PheromoneType::PriceFreshness });
        }
        if config.pheromones.rebalance_opportunity_decay == 0 {
            return Result::Err(PolicyError { kind: PheromoneType::RebalanceOpportunity });
        }
        if config.pheromones.execution_permit_decay == 0 {
            return Result::Err(PolicyError { kind: PheromoneType::ExecutionPermit });
        }
        if config.pheromones.trade_executed_decay == 0 {
            return Result::Err(PolicyError { kind: PheromoneType::TradeExecuted });
        }
        let b = Blackboard {
            config,
            slot_price_freshness: Option::None,
            slot_rebalance_opportunity: Option::None,
            slot_execution_permit: Option::None,
            slot_trade_executed: Option::None,
            events: Vec::new(),
        };
        proof {
            assert(b@.slots =~= empty_slots());
            assert(b@.events =~= Seq::<EventModel>::empty());
        }
        Result::Ok(b)
    }

    /// The policy this board was built over.
    pub fn config(&self) -> (r: &Config)
        ensures
            *r == self@.config,
    {
        &self.config
    }

    /// Append an event, dropping it if the buffer is full; nothing else
    /// changes, and the emitting operation never fails on its account.
    fn emit(&mut self, e: PheromoneEvent)
        ensures
            final(self)@ == (BoardModel {
                events: emit_model(old(self)@.events, event_model(e)),
                ..old(self)@
            }),
    {
        let ghost pre = self@;
        if self.events.len() < EVENT_CAPACITY {
            self.events.push(e);
            proof {
                assert(events_view(self.events@) =~= emit_model(pre.events, event_model(e)));
                assert(self@ =~= (BoardModel { events: emit_model(pre.events, event_model(e)), ..pre }));
            }
        } else {
            proof {
                assert(self@ =~= (BoardModel { events: emit_model(pre.events, event_model(e)), ..pre }));
            }
        }
    }

    /// Read-only access to a kind's slot.
    fn slot_get(&self, kind: PheromoneType) -> (r: &Option<PheromonePayload<Vec<u8>>>)
        ensures
            env_model_opt(*r) == slot_of(self@, kind),
    {
        match kind {
            PheromoneType::PriceFreshness => &self.slot_price_freshness,
            PheromoneType::RebalanceOpportunity => &self.slot_rebalance_opportunity,
            PheromoneType::ExecutionPermit => &self.slot_execution_permit,
            PheromoneType::TradeExecuted => &self.slot_trade_executed,
        }
    }

    /// Overwrite a kind's slot; nothing else changes.
    fn slot_set(&mut self, kind: PheromoneType, v: Option<PheromonePayload<Vec<u8>>>)
        ensures
            final(self)@ == (BoardModel {
                slots: old(self)@.slots.insert(kind, env_model_opt(v)),
                ..old(self)@
            }),
    {
        let ghost pre = self@;
        match kind {
            PheromoneType::PriceFreshness => {
                self.slot_price_freshness = v;
            },
            PheromoneType::RebalanceOpportunity => {
                self.slot_rebalance_opportunity = v;
            },
            PheromoneType::ExecutionPermit => {
                self.slot_execution_permit = v;
            },
            PheromoneType::TradeExecuted => {
                self.slot_trade_executed = v;
            },
        }
        proof {
            assert(self@.slots =~= pre.slots.insert(kind, env_model_opt(v)));
            assert(self@ =~= (BoardModel { slots: pre.slots.insert(kind, env_model_opt(v)), ..pre }));
        }
    }

    /// Deposit a payload under a kind at the given instant: a fresh
    /// full-strength envelope overwrites the slot unconditionally, and a
    /// `Deposited` event is emitted.
    pub fn deposit_at(&mut self, kind: PheromoneType, data: Vec<u8>, now_ms: u64)
        requires
            old(self).wf(),
        ensures
            final(self)@ == deposit_model(old(self)@, kind, data@, now_ms),
            final(self).wf(),
    {
        let ghost pre = self@;
        let decay_rate: u64 = kind.decay_rate(&self.config);
        let label: String = String::from_str(kind.label());
        let pheromone = Pheromone::with_decay_at(label, decay_rate, now_ms);
        let envelope = PheromonePayload::new(data, pheromone);
        self.slot_set(kind, Option::Some(envelope));
        self.emit(
            PheromoneEvent {
                pheromone_type: String::from_str(kind.label()),
                intensity: SCALE,
                action: PheromoneAction::Deposited,
            },
        );
        proof {
            assert(self@ =~= deposit_model(pre, kind, data@, now_ms));
        }
    }

    /// Deposit a payload under a kind at the wall clock's present reading.
    pub fn deposit(&mut self, kind: PheromoneType, data: Vec<u8>)
        requires
            old(self).wf(),
        ensures
            exists|now_ms: u64| final(self)@ == deposit_model(old(self)@, kind, data@, now_ms),
            final(self).wf(),
    {
        let now: u64 = now_millis();
        let ghost pre = self@;
        let ghost d = data@;
        self.deposit_at(kind, data, now);
        proof {
            assert(self@ == deposit_model(pre, kind, d, now));
        }
    }

    /// Sense a kind at the given instant. An empty slot yields nothing —
    /// absence is a normal outcome, not an error. A fresh envelope (signal
    /// strictly above the kind's threshold) yields a copy of its payload and
    /// a `Sniffed` event; a decayed one yields nothing and a `Decayed`
    /// event, and is left in place for the next deposit to overwrite.
    pub fn sniff_at(&mut self, kind: PheromoneType, now_ms: u64) -> (r: Option<Vec<u8>>)
        requires
            old(self).wf(),
        ensures
            data_view(r) == sniff_data_model(old(self)@, kind, now_ms),
            final(self)@ == (BoardModel {
                events: sniff_events_model(old(self)@, kind, now_ms),
                ..old(self)@
            }),
            final(self).wf(),
    {
        let ghost pre = self@;
        let threshold: u64 = kind.threshold(&self.config);
        let (found, intensity, data): (bool, u64, Option<Vec<u8>>) = match self.slot_get(kind) {
            Option::None => (false, 0, Option::None),
            Option::Some(envelope) => {
                let i: u64 = envelope.intensity_at(now_ms);
                if i > threshold {
                    (true, i, Option::Some(copy_bytes(&envelope.data)))
                } else {
                    (true, i, Option::None)
                }
            },
        };
        if found {
            let action = if data.is_some() {
                PheromoneAction::Sniffed
            } else {
                PheromoneAction::Decayed
            };
            self.emit(
                PheromoneEvent {
                    pheromone_type: String::from_str(kind.label()),
                    intensity,
                    action,
                },
            );
        }
        proof {
            assert(self@ =~= (BoardModel {
                events: sniff_events_model(pre, kind, now_ms),
                ..pre
            }));
        }
        data
    }

    /// Sense a kind at the wall clock's present reading.
    pub fn sniff(&mut self, kind: PheromoneType) -> (r: Option<Vec<u8>>)
        requires
            old(self).wf(),
        ensures
            exists|now_ms: u64|
                {
                    &&& data_view(r) == sniff_data_model(old(self)@, kind, now_ms)
                    &&& final(self)@ == (BoardModel {
                        events: sniff_events_model(old(self)@, kind, now_ms),
                        ..old(self)@
                    })
                },
            final(self).wf(),
    {
        let now: u64 = now_millis();
        let ghost pre = self@;
        let r = self.sniff_at(kind, now);
        proof {
            assert({
                &&& data_view(r) == sniff_data_model(pre, kind, now)
                &&& self@ == (BoardModel { events: sniff_events_model(pre, kind, now), ..pre })
            });
        }
        r
    }

    /// The numeric intensity of a kind at the given instant: zero when the
    /// slot is empty, the signal's strength otherwise — no threshold
    /// gating, no event, and no need to know the payload's shape.
    pub fn get_intensity_at(&self, kind: PheromoneType, now_ms: u64) -> (r: u64)
        ensures
            r == intensity_model(self@, kind, now_ms),
            r <= SCALE,
    {
        match self.slot_get(kind) {
            Option::None => 0,
            Option::Some(envelope) => envelope.intensity_at(now_ms),
        }
    }

    /// The numeric intensity of a kind at the wall clock's present reading.
    pub fn get_intensity(&self, kind: PheromoneType) -> (r: u64)
        ensures
            r <= SCALE,
            exists|now_ms: u64| r == intensity_model(self@, kind, now_ms),
    {
        let now: u64 = now_millis();
        let r = self.get_intensity_at(kind, now);
        proof {
            assert(r == intensity_model(self@, kind, now));
        }
        r
    }

    /// Every kind's label and intensity at the given instant, in
    /// registry-declaration order.
    pub fn get_all_intensities_at(&self, now_ms: u64) -> (r: Vec<(String, u64)>)
        ensures
            r@.len() == all_kinds().len(),
            all_intensities_prop(self@, r@, now_ms),
    {
        let kinds = PheromoneType::all();
        let mut out: Vec<(String, u64)> = Vec::new();
        let n: usize = kinds.len();
        let mut i: usize = 0;
        while i < n
            invariant
                i <= n,
                n == all_kinds().len(),
                kinds@ == all_kinds(),
                out@.len() == i,
                forall|j: int|
                    0 <= j < i ==> {
                        &&& (#[trigger] out@[j]).0@ == all_kinds()[j].label_spec()
                        &&& out@[j].1 == intensity_model(self@, all_kinds()[j], now_ms)
                    },
            decreases n - i,
        {
            let kind = kinds[i];
            let label: String = String::from_str(kind.label());
            let intensity: u64 = self.get_intensity_at(kind, now_ms);
            out.push((label, intensity));
            i = i + 1;
        }
        out
    }

    /// Every kind's label and intensity at the wall clock's present reading,
    /// in registry-declaration order.
    pub fn get_all_intensities(&self) -> (r: Vec<(String, u64)>)
        ensures
            r@.len() == all_kinds().len(),
            exists|now_ms: u64| all_intensities_prop(self@, r@, now_ms),
    {
        let now: u64 = now_millis();
        let r = self.get_all_intensities_at(now);
        proof {
            assert(all_intensities_prop(self@, r@, now));
        }
        r
    }

    /// Empty every kind's slot; for test and reset use, not part of the
    /// steady-state coordination path. Pending events and policy stay.
    pub fn clear_all(&mut self)
        requires
            old(self).wf(),
        ensures
            final(self)@ == clear_model(old(self)@),
            final(self).wf(),
    {
        let ghost pre = self@;
        self.slot_price_freshness = Option::None;
        self.slot_rebalance_opportunity = Option::None;
        self.slot_execution_permit = Option::None;
        self.slot_trade_executed = Option::None;
        proof {
            assert(self@.slots =~= empty_slots());
            assert(self@ =~= clear_model(pre));
        }
    }

    /// Drain the pending events, oldest first; observers call this to fan
    /// the events out. The buffer is left empty.
    pub fn take_events(&mut self) -> (r: Vec<PheromoneEvent>)
        ensures
            events_view(r@) == old(self)@.events,
            final(self)@ == (BoardModel { events: Seq::<EventModel>::empty(), ..old(self)@ }),
    {
        let ghost pre = self@;
        let mut drained: Vec<PheromoneEvent> = Vec::new();
        core::mem::swap(&mut self.events, &mut drained);
        proof {
            assert(events_view(drained@) =~= pre.events);
            assert(events_view(self.events@) =~= Seq::<EventModel>::empty());
            assert(self@ =~= (BoardModel { events: Seq::<EventModel>::empty(), ..pre }));
        }
        drained
    }
}

/// A deposit immediately followed by a sense at the same instant returns
/// exactly the deposited payload, for any kind whose threshold is below
/// full strength: a fresh signal reads at full strength and so is active.
pub proof fn lemma_deposit_then_sense(m: BoardModel, kind: PheromoneType, data: Seq<u8>, now_ms: u64)
    requires
        kind.threshold_spec(m.config) < SCALE,
    ensures
        sniff_data_model(deposit_model(m, kind, data, now_ms), kind, now_ms) == Option::Some(data),
{
    let after = deposit_model(m, kind, data, now_ms);
    let e = fresh_envelope_model(kind, m.config, data, now_ms);
    assert(slot_of(after, kind) == Option::Some(e));
    assert(elapsed_ms_of(now_ms, now_ms) == 0);
    lemma_strength_at_zero(SCALE as nat, e.decay_rate as nat);
    assert(env_strength_at(e, now_ms) == SCALE);
}

/// Two sequential deposits to one kind leave exactly the second envelope in
/// the slot, whatever the timing; sensed at any later (or any) instant the
/// slot can yield the second payload or nothing, never the first.
pub proof fn lemma_overwrite(
    m: BoardModel,
    kind: PheromoneType,
    a: Seq<u8>,
    b: Seq<u8>,
    t1: u64,
    t2: u64,
    sense_t: u64,
)
    ensures
        slot_of(deposit_model(deposit_model(m, kind, a, t1), kind, b, t2), kind)
            == Option::Some(fresh_envelope_model(kind, m.config, b, t2)),
        a != b ==> sniff_data_model(deposit_model(deposit_model(m, kind, a, t1), kind, b, t2), kind, sense_t)
            != Option::Some(a),
{
}

/// A sequence of deposits to one kind, applied in order.
pub open spec fn deposit_seq_model(
    m: BoardModel,
    kind: PheromoneType,
    ops: Seq<(Seq<u8>, u64)>,
) -> BoardModel
    decreases ops.len(),
{
    if ops.len() == 0 {
        m
    } else {
        deposit_seq_model(deposit_model(m, kind, ops[0].0, ops[0].1), kind, ops.drop_first())
    }
}

/// Any number of deposits to one kind, in whatever order the store resolved
/// them, leave exactly one envelope: the last deposit's, whole — its payload
/// is one of the deposited payloads, never a mixture.
pub proof fn lemma_deposits_last_wins(m: BoardModel, kind: PheromoneType, ops: Seq<(Seq<u8>, u64)>)
    requires
        ops.len() > 0,
    ensures
        slot_of(deposit_seq_model(m, kind, ops), kind) == Option::Some(
            fresh_envelope_model(kind, m.config, ops.last().0, ops.last().1),
        ),
        exists|i: int|
            0 <= i < ops.len() && slot_of(deposit_seq_model(m, kind, ops), kind)
                == Option::Some(
                fresh_envelope_model(kind, m.config, ops[i].0, ops[i].1),
            ),
    decreases ops.len(),
{
    if ops.len() == 1 {
        assert(ops.last() == ops[0]);
    } else {
        let m1 = deposit_model(m, kind, ops[0].0, ops[0].1);
        assert(m1.config == m.config);
        lemma_deposits_last_wins(m1, kind, ops.drop_first());
        assert(ops.drop_first().last() == ops.last());
    }
    assert(0 <= ops.len() - 1 < ops.len() && slot_of(deposit_seq_model(m, kind, ops), kind)
        == Option::Some(
        fresh_envelope_model(kind, m.config, ops[ops.len() - 1].0, ops[ops.len() - 1].1),
    ));
}

/// A never-deposited kind senses as nothing — an ordinary outcome, not an
/// error.
pub proof fn lemma_sense_absent(m: BoardModel, kind: PheromoneType, now_ms: u64)
    requires
        slot_of(m, kind) == Option::None::<EnvelopeModel>,
    ensures
        sniff_data_model(m, kind, now_ms) == Option::None::<Seq<u8>>,
{
}

/// After `clear_all`, sensing any kind at any instant yields nothing.
pub proof fn lemma_clear_then_sense(m: BoardModel, kind: PheromoneType, now_ms: u64)
    ensures
        sniff_data_model(clear_model(m), kind, now_ms) == Option::None::<Seq<u8>>,
{
    match kind {
        PheromoneType::PriceFreshness => {},
        PheromoneType::RebalanceOpportunity => {},
        PheromoneType::ExecutionPermit => {},
        PheromoneType::TradeExecuted => {},
    }
}

} // verus!
