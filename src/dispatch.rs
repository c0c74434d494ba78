//! The dispatcher: allocates request ids, keeps the table of live
//! subscriptions, and decides where each inbound event goes.

use crate::catalog::{
    cancel_kind, end_sentinel, opens_subscription, slot_kind, InboundMessages, OutboundMessages,
};
use vstd::prelude::*;

verus! {

/// Where a live subscription stands. A subscription that has ended or failed
/// leaves the table.
#[derive(Debug, Clone, Copy, PartialEq, Eq, Structural)]
pub enum SubState {
    /// Registered; nothing has arrived yet.
    Pending,
    /// At least one event has been delivered.
    Streaming,
    /// A cancel was sent; events are still delivered until the end-sentinel
    /// or an error comes.
    CancelPending,
}

/// One outstanding request.
#[derive(Debug, Clone, Copy, PartialEq, Eq, Structural)]
pub struct Subscription {
    pub id: i64,
    pub kind: OutboundMessages,
    pub end: Option<InboundMessages>,
    pub state: SubState,
}

/// Where an inbound event goes.
#[derive(Debug, Clone, Copy, PartialEq, Eq, Structural)]
pub enum Route {
    /// To the consumer of request `id`; `last` when the subscription has
    /// ended with this event and left the table.
    Deliver { id: i64, last: bool },
    /// To the consumer waiting for the single reply of kind `kind`.
    DeliverSlot { kind: InboundMessages },
    /// To the session-wide sink of unsolicited events.
    Unsolicited,
}

/// Why the dispatcher refused an operation.
#[derive(Debug, Clone, Copy, PartialEq, Eq, Structural)]
pub enum DispatchError {
    /// No live subscription has this id.
    UnknownId,
    /// The subscription's kind has no cancel message.
    NotCancellable,
    /// Every request id has been handed out.
    IdsExhausted,
    /// The kind neither opens a subscription nor has a single reply.
    NotCorrelated,
}

/// The request-id to subscription table.
pub struct Dispatcher {
    next_id: i64,
    subs: Vec<Subscription>,
    slots: Vec<InboundMessages>,
}

pub struct DispatcherView {
    pub next_id: int,
    pub subs: Seq<Subscription>,
    pub slots: Seq<InboundMessages>,
}

impl View for Dispatcher {
    type V = DispatcherView;

    closed spec fn view(&self) -> DispatcherView {
        DispatcherView { next_id: self.next_id as int, subs: self.subs@, slots: self.slots@ }
    }
}

/// Whether a subscription with id `id` is in the table.
pub open spec fn live(v: DispatcherView, id: i64) -> bool {
    exists|i: int| 0 <= i < v.subs.len() && (#[trigger] v.subs[i]).id == id
}

/// The position of the subscription with id `id`.
pub open spec fn pos_of(v: DispatcherView, id: i64) -> int {
    choose|i: int| 0 <= i < v.subs.len() && (#[trigger] v.subs[i]).id == id
}

/// Ids are distinct and below the next id; the next id starts at 1 and only
/// grows; each subscription ends on the end-sentinel of its request kind;
/// each waiting reply kind has one slot.
pub open spec fn dispatcher_wf(v: DispatcherView) -> bool {
    &&& 1 <= v.next_id <= i64::MAX
    &&& forall|i: int| 0 <= i < v.subs.len() ==> 1 <= (#[trigger] v.subs[i]).id < v.next_id
    &&& forall|i: int| 0 <= i < v.subs.len() ==> (#[trigger] v.subs[i]).end == end_sentinel(v.subs[i].kind)
    &&& forall|i: int, j: int|
        #![trigger v.subs[i], v.subs[j]]
        0 <= i < v.subs.len() && 0 <= j < v.subs.len() && i != j ==> v.subs[i].id != v.subs[j].id
    &&& forall|i: int, j: int|
        #![trigger v.slots[i], v.slots[j]]
        0 <= i < v.slots.len() && 0 <= j < v.slots.len() && i != j ==> v.slots[i] != v.slots[j]
}

/// Whether event kind `kind` ends subscription `s`: its end-sentinel, or an
/// error that names it.
pub open spec fn ends(s: Subscription, kind: InboundMessages) -> bool {
    s.end == Some(kind) || kind == InboundMessages::ErrMsg
}

/// The request that an event is addressed to: its id, except for errors with
/// an id of 0 or less, which are session notices.
pub open spec fn target(kind: InboundMessages, req_id: Option<i64>) -> Option<i64> {
    match req_id {
        Some(id) => if kind == InboundMessages::ErrMsg && id <= 0 {
            None
        } else {
            Some(id)
        },
        None => None,
    }
}

/// The table after an event of kind `kind` and request id `req_id`, and where
/// the event goes.
pub open spec fn route_spec(v: DispatcherView, kind: InboundMessages, req_id: Option<i64>) -> (
    DispatcherView,
    Route,
) {
    match target(kind, req_id) {
        Some(id) => if live(v, id) {
            let i = pos_of(v, id);
            if ends(v.subs[i], kind) {
                (DispatcherView { subs: v.subs.remove(i), ..v }, Route::Deliver { id, last: true })
            } else {
                let s = v.subs[i];
                let st = if s.state == SubState::CancelPending {
                    SubState::CancelPending
                } else {
                    SubState::Streaming
                };
                (
                    DispatcherView { subs: v.subs.update(i, Subscription { state: st, ..s }), ..v },
                    Route::Deliver { id, last: false },
                )
            }
        } else {
            (v, Route::Unsolicited)
        },
        None => if req_id is None && v.slots.contains(kind) {
            (
                DispatcherView { slots: v.slots.remove(v.slots.index_of(kind)), ..v },
                Route::DeliverSlot { kind },
            )
        } else {
            (v, Route::Unsolicited)
        },
    }
}

impl Dispatcher {
    /// An empty table whose first id will be 1.
    pub fn new() -> (r: Dispatcher)
        ensures
            dispatcher_wf(r@),
            r@.next_id == 1,
            r@.subs.len() == 0,
            r@.slots.len() == 0,
    {
        Dispatcher { next_id: 1, subs: Vec::new(), slots: Vec::new() }
    }

    pub closed spec fn wf(&self) -> bool {
        dispatcher_wf(self@)
    }

    fn find(&self, id: i64) -> (r: Option<usize>)
        requires
            dispatcher_wf(self@),
        ensures
            match r {
                Some(i) => live(self@, id) && i as int == pos_of(self@, id) && i < self@.subs.len(),
                None => !live(self@, id),
            },
    {
        let mut i: usize = 0;
        while i < self.subs.len()
            invariant
                dispatcher_wf(self@),
                i <= self.subs@.len(),
                forall|k: int| 0 <= k < i ==> (#[trigger] self.subs@[k]).id != id,
            decreases self.subs@.len() - i,
        {
            if self.subs[i].id == id {
                assert(self@.subs[i as int].id == id);
                let ghost j = pos_of(self@, id);
                assert(self@.subs[j].id == id);
                return Some(i);
            }
            i = i + 1;
        }
        None
    }

    /// Whether request `id` has a live subscription.
    pub fn is_live(&self, id: i64) -> (r: bool)
        requires
            dispatcher_wf(self@),
        ensures
            r == live(self@, id),
    {
        self.find(id).is_some()
    }

    /// The number of live subscriptions.
    pub fn live_count(&self) -> (r: usize)
        ensures
            r == self@.subs.len(),
    {
        self.subs.len()
    }

    /// The id that the next subscription will get.
    pub fn next_id(&self) -> (r: i64)
        ensures
            r == self@.next_id,
    {
        self.next_id
    }

    /// Opens a subscription for a request of kind `kind` under a new id: the
    /// next id, which no live or earlier subscription has had.
    pub fn register(&mut self, kind: OutboundMessages) -> (r: Result<i64, DispatchError>)
        requires
            dispatcher_wf(old(self)@),
        ensures
            dispatcher_wf(final(self)@),
            !opens_subscription(kind) ==> r == Err::<i64, DispatchError>(DispatchError::NotCorrelated)
                && final(self)@ == old(self)@,
            opens_subscription(kind) && old(self)@.next_id == i64::MAX ==> r == Err::<
                i64,
                DispatchError,
            >(DispatchError::IdsExhausted) && final(self)@ == old(self)@,
            opens_subscription(kind) && old(self)@.next_id < i64::MAX ==> {
                &&& r == Ok::<i64, DispatchError>(old(self)@.next_id as i64)
                &&& !live(old(self)@, old(self)@.next_id as i64)
                &&& final(self)@.next_id == old(self)@.next_id + 1
                &&& final(self)@.subs == old(self)@.subs.push(
                    Subscription {
                        id: old(self)@.next_id as i64,
                        kind,
                        end: end_sentinel(kind),
                        state: SubState::Pending,
                    },
                )
                &&& final(self)@.slots == old(self)@.slots
            },
    {
        if !kind.opens_subscription() {
            return Err(DispatchError::NotCorrelated);
        }
        if self.next_id == i64::MAX {
            return Err(DispatchError::IdsExhausted);
        }
        let id = self.next_id;
        let s = Subscription { id, kind, end: kind.end_sentinel(), state: SubState::Pending };
        proof {
            lemma_push_keeps_wf(self@, s);
        }
        self.subs.push(s);
        self.next_id = id + 1;
        Ok(id)
    }

    /// Waits for the single reply to a request of kind `kind`, which carries
    /// no request id. Returns false, changing nothing, when that reply is
    /// already awaited.
    pub fn register_slot(&mut self, kind: OutboundMessages) -> (r: Result<bool, DispatchError>)
        requires
            dispatcher_wf(old(self)@),
        ensures
            dispatcher_wf(final(self)@),
            final(self)@.subs == old(self)@.subs,
            final(self)@.next_id == old(self)@.next_id,
            match slot_kind(kind) {
                None => r == Err::<bool, DispatchError>(DispatchError::NotCorrelated)
                    && final(self)@.slots == old(self)@.slots,
                Some(k) => if old(self)@.slots.contains(k) {
                    r == Ok::<bool, DispatchError>(false) && final(self)@.slots == old(self)@.slots
                } else {
                    r == Ok::<bool, DispatchError>(true) && final(self)@.slots == old(
                        self,
                    )@.slots.push(k)
                },
            },
    {
        let k = match kind.slot_kind() {
            Some(k) => k,
            None => {
                return Err(DispatchError::NotCorrelated);
            },
        };
        let mut i: usize = 0;
        while i < self.slots.len()
            invariant
                dispatcher_wf(self@),
                self@ == old(self)@,
                slot_kind(kind) == Some(k),
                i <= self.slots@.len(),
                forall|j: int| 0 <= j < i ==> self@.slots[j] != k,
            decreases self.slots@.len() - i,
        {
            if self.slots[i] == k {
                assert(self@.slots[i as int] == k);
                assert(old(self)@.slots.contains(k));
                return Ok(false);
            }
            i = i + 1;
        }
        proof {
            assert(!self@.slots.contains(k)) by {
                if self@.slots.contains(k) {
                    let w = choose|w: int| 0 <= w < self@.slots.len() && self@.slots[w] == k;
                    assert(self.slots@[w] == k);
                }
            }
            lemma_slot_push_keeps_wf(self@, k);
        }
        self.slots.push(k);
        Ok(true)
    }

    /// Routes an inbound event of kind `kind` with request id `req_id`: to its
    /// live subscription, which leaves the table on its end-sentinel or an
    /// error; to the slot waiting for its kind; or to the unsolicited sink.
    pub fn route(&mut self, kind: InboundMessages, req_id: Option<i64>) -> (r: Route)
        requires
            dispatcher_wf(old(self)@),
        ensures
            dispatcher_wf(final(self)@),
            (final(self)@, r) == route_spec(old(self)@, kind, req_id),
    {
        let tgt = match req_id {
            Some(id) => if kind == InboundMessages::ErrMsg && id <= 0 {
                None
            } else {
                Some(id)
            },
            None => None,
        };
        match tgt {
            Some(id) => match self.find(id) {
                Some(i) => {
                    let s = self.subs[i];
                    let is_end = match s.end {
                        Some(e) => e == kind,
                        None => false,
                    };
                    if is_end || kind == InboundMessages::ErrMsg {
                        proof {
                            lemma_remove_keeps_wf(self@, i as int);
                        }
                        self.subs.remove(i);
                        Route::Deliver { id, last: true }
                    } else {
                        let st = if s.state == SubState::CancelPending {
                            SubState::CancelPending
                        } else {
                            SubState::Streaming
                        };
                        proof {
                            lemma_update_keeps_wf(self@, i as int, Subscription { state: st, ..s });
                        }
                        self.subs.set(i, Subscription { state: st, ..s });
                        Route::Deliver { id, last: false }
                    }
                },
                None => Route::Unsolicited,
            },
            None => {
                if req_id.is_none() {
                    let mut j: usize = 0;
                    while j < self.slots.len()
                        invariant
                            dispatcher_wf(self@),
                            self@ == old(self)@,
                            req_id is None,
                            j <= self.slots@.len(),
                            forall|a: int| 0 <= a < j ==> self@.slots[a] != kind,
                        decreases self.slots@.len() - j,
                    {
                        if self.slots[j] == kind {
                            assert(self@.slots[j as int] == kind);
                            proof {
                                lemma_index_of_distinct(self@.slots, j as int);
                                lemma_slot_remove_keeps_wf(self@, j as int);
                            }
                            self.slots.remove(j);
                            return Route::DeliverSlot { kind };
                        }
                        j = j + 1;
                    }
                }
                Route::Unsolicited
            },
        }
    }

    /// Asks for request `id` to be cancelled and returns the cancel kind to
    /// send with that id. A subscription that has an end-sentinel stays, in
    /// state `CancelPending`, until the sentinel or an error arrives; one
    /// without leaves the table now, since nothing will end it.
    pub fn cancel(&mut self, id: i64) -> (r: Result<OutboundMessages, DispatchError>)
        requires
            dispatcher_wf(old(self)@),
        ensures
            dispatcher_wf(final(self)@),
            final(self)@.next_id == old(self)@.next_id,
            final(self)@.slots == old(self)@.slots,
            !live(old(self)@, id) ==> r == Err::<OutboundMessages, DispatchError>(
                DispatchError::UnknownId,
            ) && final(self)@ == old(self)@,
            live(old(self)@, id) ==> {
                let i = pos_of(old(self)@, id);
                let s = old(self)@.subs[i];
                match cancel_kind(s.kind) {
                    None => r == Err::<OutboundMessages, DispatchError>(
                        DispatchError::NotCancellable,
                    ) && final(self)@ == old(self)@,
                    Some(c) => r == Ok::<OutboundMessages, DispatchError>(c) && if s.end is Some {
                        final(self)@.subs == old(self)@.subs.update(
                            i,
                            Subscription { state: SubState::CancelPending, ..s },
                        )
                    } else {
                        final(self)@.subs == old(self)@.subs.remove(i)
                    },
                }
            },
    {
        let i = match self.find(id) {
            Some(i) => i,
            None => {
                return Err(DispatchError::UnknownId);
            },
        };
        let s = self.subs[i];
        let c = match s.kind.cancel_kind() {
            Some(c) => c,
            None => {
                return Err(DispatchError::NotCancellable);
            },
        };
        let ghost old_subs = self.subs@;
        if s.end.is_some() {
            proof {
                lemma_update_keeps_wf(self@, i as int, Subscription { state: SubState::CancelPending, ..s });
            }
            self.subs.set(i, Subscription { state: SubState::CancelPending, ..s });
        } else {
            proof {
                lemma_remove_keeps_wf(self@, i as int);
            }
            self.subs.remove(i);
        }
        Ok(c)
    }

    /// Empties the table, on session close or a fatal error, and returns the
    /// ids of the subscriptions that were live, in the order they were opened;
    /// each of them is to be failed with the closing error.
    pub fn terminate_all(&mut self) -> (r: Vec<i64>)
        requires
            dispatcher_wf(old(self)@),
        ensures
            dispatcher_wf(final(self)@),
            final(self)@.subs.len() == 0,
            final(self)@.slots.len() == 0,
            final(self)@.next_id == old(self)@.next_id,
            r@ == old(self)@.subs.map_values(|s: Subscription| s.id),
    {
        let mut ids: Vec<i64> = Vec::new();
        let mut i: usize = 0;
        while i < self.subs.len()
            invariant
                i <= self.subs@.len(),
                ids@ == self.subs@.subrange(0, i as int).map_values(|s: Subscription| s.id),
            decreases self.subs@.len() - i,
        {
            ids.push(self.subs[i].id);
            assert(self.subs@.subrange(0, i + 1).map_values(|s: Subscription| s.id) =~= self.subs@.subrange(0, i as int).map_values(|s: Subscription| s.id).push(self.subs@[i as int].id));
            i = i + 1;
        }
        assert(self.subs@.subrange(0, self.subs@.len() as int) =~= self.subs@);
        self.subs = Vec::new();
        self.slots = Vec::new();
        ids
    }
}

proof fn lemma_remove_keeps_wf(v: DispatcherView, i: int)
    requires
        dispatcher_wf(v),
        0 <= i < v.subs.len(),
    ensures
        dispatcher_wf(DispatcherView { subs: v.subs.remove(i), ..v }),
{
    let r = v.subs.remove(i);
    assert forall|a: int| 0 <= a < r.len() implies 1 <= (#[trigger] r[a]).id < v.next_id by {
        let a2 = if a < i { a } else { a + 1 };
        assert(r[a] == v.subs[a2]);
    }
    assert forall|a: int, b: int|
        #![trigger r[a], r[b]]
        0 <= a < r.len() && 0 <= b < r.len() && a != b implies r[a].id != r[b].id by {
        let a2 = if a < i { a } else { a + 1 };
        let b2 = if b < i { b } else { b + 1 };
        assert(r[a] == v.subs[a2] && r[b] == v.subs[b2]);
    }
}

proof fn lemma_push_keeps_wf(v: DispatcherView, s: Subscription)
    requires
        dispatcher_wf(v),
        s.id == v.next_id,
        s.end == end_sentinel(s.kind),
        v.next_id < i64::MAX,
    ensures
        dispatcher_wf(DispatcherView { next_id: v.next_id + 1, subs: v.subs.push(s), ..v }),
        !live(v, s.id),
{
    let r = v.subs.push(s);
    assert forall|a: int| 0 <= a < r.len() implies 1 <= (#[trigger] r[a]).id < v.next_id + 1
        && r[a].end == end_sentinel(r[a].kind) by {
        if a < v.subs.len() {
            assert(r[a] == v.subs[a]);
        }
    }
    assert forall|a: int, b: int|
        #![trigger r[a], r[b]]
        0 <= a < r.len() && 0 <= b < r.len() && a != b implies r[a].id != r[b].id by {
        if a < v.subs.len() {
            assert(r[a] == v.subs[a]);
        }
        if b < v.subs.len() {
            assert(r[b] == v.subs[b]);
        }
    }
}

proof fn lemma_slot_push_keeps_wf(v: DispatcherView, k: InboundMessages)
    requires
        dispatcher_wf(v),
        !v.slots.contains(k),
    ensures
        dispatcher_wf(DispatcherView { slots: v.slots.push(k), ..v }),
{
    let r = v.slots.push(k);
    assert forall|a: int, b: int|
        #![trigger r[a], r[b]]
        0 <= a < r.len() && 0 <= b < r.len() && a != b implies r[a] != r[b] by {
        if a < v.slots.len() && b < v.slots.len() {
            assert(r[a] == v.slots[a] && r[b] == v.slots[b]);
        } else if a < v.slots.len() {
            assert(r[a] == v.slots[a]);
        } else if b < v.slots.len() {
            assert(r[b] == v.slots[b]);
        }
    }
}

proof fn lemma_slot_remove_keeps_wf(v: DispatcherView, j: int)
    requires
        dispatcher_wf(v),
        0 <= j < v.slots.len(),
    ensures
        dispatcher_wf(DispatcherView { slots: v.slots.remove(j), ..v }),
{
    let r = v.slots.remove(j);
    assert forall|a: int, b: int|
        #![trigger r[a], r[b]]
        0 <= a < r.len() && 0 <= b < r.len() && a != b implies r[a] != r[b] by {
        let a2 = if a < j { a } else { a + 1 };
        let b2 = if b < j { b } else { b + 1 };
        assert(r[a] == v.slots[a2] && r[b] == v.slots[b2]);
    }
}

proof fn lemma_update_keeps_wf(v: DispatcherView, i: int, s: Subscription)
    requires
        dispatcher_wf(v),
        0 <= i < v.subs.len(),
        s.id == v.subs[i].id,
        s.kind == v.subs[i].kind,
        s.end == v.subs[i].end,
    ensures
        dispatcher_wf(DispatcherView { subs: v.subs.update(i, s), ..v }),
{
    let r = v.subs.update(i, s);
    assert forall|a: int| 0 <= a < r.len() implies (#[trigger] r[a]).id == v.subs[a].id && r[a].kind
        == v.subs[a].kind && r[a].end == v.subs[a].end by {}
    assert forall|a: int, b: int|
        #![trigger r[a], r[b]]
        0 <= a < r.len() && 0 <= b < r.len() && a != b implies r[a].id != r[b].id by {
        assert(r[a].id == v.subs[a].id && r[b].id == v.subs[b].id);
    }
}

proof fn lemma_index_of_distinct(s: Seq<InboundMessages>, j: int)
    requires
        0 <= j < s.len(),
        forall|a: int, b: int|
            #![trigger s[a], s[b]]
            0 <= a < s.len() && 0 <= b < s.len() && a != b ==> s[a] != s[b],
    ensures
        s.contains(s[j]),
        s.index_of(s[j]) == j,
{
    assert(s.contains(s[j]));
    let k = s.index_of(s[j]);
    assert(s[k] == s[j]);
}

/// No two live subscriptions share a request id.
pub proof fn lemma_live_ids_unique(v: DispatcherView, i: int, j: int)
    requires
        dispatcher_wf(v),
        0 <= i < v.subs.len(),
        0 <= j < v.subs.len(),
        i != j,
    ensures
        v.subs[i].id != v.subs[j].id,
{
}

/// An event that ends a live subscription, its end-sentinel or an error naming
/// it, is delivered to it as its last event, and its id leaves the table.
pub proof fn lemma_end_frees_id(v: DispatcherView, kind: InboundMessages, id: i64)
    requires
        dispatcher_wf(v),
        target(kind, Some(id)) == Some(id),
        live(v, id),
        ends(v.subs[pos_of(v, id)], kind),
    ensures
        route_spec(v, kind, Some(id)).1 == (Route::Deliver { id, last: true }),
        !live(route_spec(v, kind, Some(id)).0, id),
        dispatcher_wf(route_spec(v, kind, Some(id)).0),
{
    let i = pos_of(v, id);
    assert(v.subs[i].id == id);
    let r = v.subs.remove(i);
    lemma_remove_keeps_wf(v, i);
    if live(route_spec(v, kind, Some(id)).0, id) {
        let a = choose|a: int| 0 <= a < r.len() && (#[trigger] r[a]).id == id;
        let a2 = if a < i { a } else { a + 1 };
        assert(r[a] == v.subs[a2]);
    }
}

/// The table after routing the events `evs`, each a kind and a request id,
/// in order.
pub open spec fn run_routes(v: DispatcherView, evs: Seq<(InboundMessages, Option<i64>)>) -> DispatcherView
    decreases evs.len(),
{
    if evs.len() == 0 {
        v
    } else {
        route_spec(run_routes(v, evs.drop_last()), evs.last().0, evs.last().1).0
    }
}

/// The kinds of the events among `evs` that are delivered to request `r`, in
/// order.
pub open spec fn delivered_to(v: DispatcherView, evs: Seq<(InboundMessages, Option<i64>)>, r: i64) -> Seq<
    InboundMessages,
>
    decreases evs.len(),
{
    if evs.len() == 0 {
        seq![]
    } else {
        let prev = delivered_to(v, evs.drop_last(), r);
        match route_spec(run_routes(v, evs.drop_last()), evs.last().0, evs.last().1).1 {
            Route::Deliver { id, .. } => if id == r {
                prev.push(evs.last().0)
            } else {
                prev
            },
            _ => prev,
        }
    }
}

/// The kinds of the events among `evs` that the wire addresses to request
/// `r`, in order.
pub open spec fn addressed_to(evs: Seq<(InboundMessages, Option<i64>)>, r: i64) -> Seq<InboundMessages>
    decreases evs.len(),
{
    if evs.len() == 0 {
        seq![]
    } else {
        let prev = addressed_to(evs.drop_last(), r);
        if target(evs.last().0, evs.last().1) == Some(r) {
            prev.push(evs.last().0)
        } else {
            prev
        }
    }
}

proof fn lemma_same_sub(v: DispatcherView, w: DispatcherView, r: i64)
    requires
        dispatcher_wf(v),
        dispatcher_wf(w),
        live(v, r),
        live(w, r),
        exists|b: int| 0 <= b < v.subs.len() && #[trigger] v.subs[b] == w.subs[pos_of(w, r)],
    ensures
        w.subs[pos_of(w, r)] == v.subs[pos_of(v, r)],
{
    let b = choose|b: int| 0 <= b < v.subs.len() && #[trigger] v.subs[b] == w.subs[pos_of(w, r)];
    let i = pos_of(v, r);
    assert(v.subs[i].id == r);
    assert(w.subs[pos_of(w, r)].id == r);
    assert(v.subs[b].id == r);
}

proof fn lemma_route_other(v: DispatcherView, kind: InboundMessages, req_id: Option<i64>, r: i64)
    requires
        dispatcher_wf(v),
        target(kind, req_id) != Some(r),
    ensures
        dispatcher_wf(route_spec(v, kind, req_id).0),
        live(route_spec(v, kind, req_id).0, r) == live(v, r),
        live(v, r) ==> route_spec(v, kind, req_id).0.subs[pos_of(route_spec(v, kind, req_id).0, r)]
            == v.subs[pos_of(v, r)],
        !(route_spec(v, kind, req_id).1 matches Route::Deliver { id, .. } && id == r),
{
    let w = route_spec(v, kind, req_id).0;
    match target(kind, req_id) {
        Some(id) => {
            if live(v, id) {
                let i = pos_of(v, id);
                assert(v.subs[i].id == id);
                if ends(v.subs[i], kind) {
                    lemma_remove_keeps_wf(v, i);
                    assert(w.subs == v.subs.remove(i));
                    if live(v, r) {
                        let a = pos_of(v, r);
                        assert(v.subs[a].id == r);
                        let a2 = if a < i { a } else { a - 1 };
                        assert(w.subs[a2] == v.subs[a]);
                        assert(live(w, r));
                    }
                    if live(w, r) {
                        let c = pos_of(w, r);
                        assert(w.subs[c].id == r);
                        let c2 = if c < i { c } else { c + 1 };
                        assert(w.subs[c] == v.subs[c2]);
                        assert(live(v, r));
                        lemma_same_sub(v, w, r);
                    }
                } else {
                    let s = v.subs[i];
                    let st = if s.state == SubState::CancelPending {
                        SubState::CancelPending
                    } else {
                        SubState::Streaming
                    };
                    lemma_update_keeps_wf(v, i, Subscription { state: st, ..s });
                    assert(w.subs == v.subs.update(i, Subscription { state: st, ..s }));
                    if live(v, r) {
                        let a = pos_of(v, r);
                        assert(v.subs[a].id == r);
                        assert(a != i);
                        assert(w.subs[a] == v.subs[a]);
                        assert(live(w, r));
                    }
                    if live(w, r) {
                        let c = pos_of(w, r);
                        assert(w.subs[c].id == r);
                        assert(c != i);
                        assert(w.subs[c] == v.subs[c]);
                        assert(live(v, r));
                        lemma_same_sub(v, w, r);
                    }
                }
            }
        },
        None => {
            if req_id is None && v.slots.contains(kind) {
                let j = v.slots.index_of(kind);
                lemma_slot_remove_keeps_wf(v, j);
                assert(w.subs == v.subs);
            }
        },
    }
}

/// An event addressed to request `r` goes to `r` while it is live, marked
/// last exactly when it ends `r`; `r` then leaves the table, and otherwise
/// stays with the same end-sentinel. An event for an id that is not live goes
/// to the unsolicited sink.
pub proof fn lemma_route_self(v: DispatcherView, kind: InboundMessages, req_id: Option<i64>, r: i64)
    requires
        dispatcher_wf(v),
        target(kind, req_id) == Some(r),
    ensures
        dispatcher_wf(route_spec(v, kind, req_id).0),
        !live(v, r) ==> route_spec(v, kind, req_id).1 == Route::Unsolicited && !live(
            route_spec(v, kind, req_id).0,
            r,
        ),
        live(v, r) ==> route_spec(v, kind, req_id).1 == (Route::Deliver {
            id: r,
            last: ends(v.subs[pos_of(v, r)], kind),
        }),
        live(v, r) && ends(v.subs[pos_of(v, r)], kind) ==> !live(route_spec(v, kind, req_id).0, r),
        live(v, r) && !ends(v.subs[pos_of(v, r)], kind) ==> live(route_spec(v, kind, req_id).0, r)
            && route_spec(v, kind, req_id).0.subs[pos_of(
            route_spec(v, kind, req_id).0,
            r,
        )].end == v.subs[pos_of(v, r)].end,
{
    let w = route_spec(v, kind, req_id).0;
    assert(req_id == Some(r));
    if live(v, r) {
        let i = pos_of(v, r);
        assert(v.subs[i].id == r);
        if ends(v.subs[i], kind) {
            lemma_end_frees_id(v, kind, r);
        } else {
            let s = v.subs[i];
            let st = if s.state == SubState::CancelPending {
                SubState::CancelPending
            } else {
                SubState::Streaming
            };
            lemma_update_keeps_wf(v, i, Subscription { state: st, ..s });
            assert(w.subs[i].id == r);
            assert(live(w, r));
            let c = pos_of(w, r);
            assert(w.subs[c].id == r);
            assert(c == i);
        }
    }
}

/// For every request `r`, the events delivered to its consumer are a prefix
/// of the events the wire addresses to it, in the same order, and an event
/// that ends it (its end-sentinel or an error naming it) can only be the last
/// of them.
pub proof fn lemma_delivery_order(v: DispatcherView, evs: Seq<(InboundMessages, Option<i64>)>, r: i64)
    requires
        dispatcher_wf(v),
    ensures
        dispatcher_wf(run_routes(v, evs)),
        delivered_to(v, evs, r).len() <= addressed_to(evs, r).len(),
        delivered_to(v, evs, r) == addressed_to(evs, r).subrange(
            0,
            delivered_to(v, evs, r).len() as int,
        ),
        !live(v, r) ==> delivered_to(v, evs, r).len() == 0,
        live(v, r) ==> forall|i: int|
            0 <= i < delivered_to(v, evs, r).len() - 1 ==> !ends(
                v.subs[pos_of(v, r)],
                #[trigger] delivered_to(v, evs, r)[i],
            ),
        live(run_routes(v, evs), r) ==> {
            &&& live(v, r)
            &&& run_routes(v, evs).subs[pos_of(run_routes(v, evs), r)].end == v.subs[pos_of(
                v,
                r,
            )].end
            &&& delivered_to(v, evs, r) == addressed_to(evs, r)
            &&& forall|i: int|
                0 <= i < delivered_to(v, evs, r).len() ==> !ends(
                    v.subs[pos_of(v, r)],
                    #[trigger] delivered_to(v, evs, r)[i],
                )
        },
    decreases evs.len(),
{
    if evs.len() == 0 {
        assert(addressed_to(evs, r).subrange(0, 0) =~= seq![]);
    } else {
        let pre = evs.drop_last();
        lemma_delivery_order(v, pre, r);
        let w = run_routes(v, pre);
        let e = evs.last();
        let d0 = delivered_to(v, pre, r);
        let a0 = addressed_to(evs.drop_last(), r);
        let d = delivered_to(v, evs, r);
        let a = addressed_to(evs, r);
        if target(e.0, e.1) == Some(r) {
            lemma_route_self(w, e.0, e.1, r);
            assert(a == a0.push(e.0));
            if live(w, r) {
                assert(d == d0.push(e.0));
                assert(d0 == a0);
                assert(d =~= a.subrange(0, d.len() as int));
                let s0 = v.subs[pos_of(v, r)];
                assert(w.subs[pos_of(w, r)].end == s0.end);
                assert forall|i: int| 0 <= i < d.len() - 1 implies !ends(s0, #[trigger] d[i]) by {
                    assert(d[i] == d0[i]);
                }
                if live(run_routes(v, evs), r) {
                    assert(!ends(w.subs[pos_of(w, r)], e.0));
                    assert forall|i: int| 0 <= i < d.len() implies !ends(s0, #[trigger] d[i]) by {
                        if i < d0.len() {
                            assert(d[i] == d0[i]);
                        }
                    }
                }
            } else {
                assert(d == d0);
                assert(a0.subrange(0, d0.len() as int) =~= a.subrange(0, d0.len() as int));
            }
        } else {
            lemma_route_other(w, e.0, e.1, r);
            assert(a == a0);
            assert(d == d0);
        }
    }
}

} // verus!
