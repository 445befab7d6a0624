use vstd::prelude::*;

use crate::event::{Event, EventView};
use crate::ident::{decimal, decimal_text, lemma_decimal_injective};

verus! {

/// The views of a sequence of events, position by position.
pub open spec fn views(s: Seq<Event>) -> Seq<EventView> {
    s.map_values(|e: Event| e@)
}

/// The event stored under identifier `id` for a given payload: the payload's
/// name and detail, with the decimal notation of `id` as its identifier.
pub open spec fn assigned(id: nat, payload: EventView) -> EventView {
    EventView { uid: decimal(id), event_name: payload.event_name, event_detail: payload.event_detail }
}

/// Every event carries, as its identifier, the number one past its position.
pub open spec fn well_numbered(s: Seq<EventView>) -> bool {
    forall|i: int| 0 <= i < s.len() ==> #[trigger] s[i].uid == decimal((i + 1) as nat)
}

/// The stored events after one successful creation: the next identifier is
/// the current count plus one.
pub open spec fn after_create(s: Seq<EventView>, payload: EventView) -> Seq<EventView> {
    s.push(assigned((s.len() + 1) as nat, payload))
}

/// The stored events after creating each payload in turn.
pub open spec fn after_creates(s: Seq<EventView>, payloads: Seq<EventView>) -> Seq<EventView>
    decreases payloads.len(),
{
    if payloads.len() == 0 {
        s
    } else {
        after_create(after_creates(s, payloads.drop_last()), payloads.last())
    }
}

/// Whether `e` carries the name and detail of `payload`.
pub open spec fn matches_payload(e: EventView, payload: EventView) -> bool {
    e.event_name == payload.event_name && e.event_detail == payload.event_detail
}

/// How many events of `s` carry the name and detail of `payload`.
pub open spec fn count_matching(s: Seq<EventView>, payload: EventView) -> nat
    decreases s.len(),
{
    if s.len() == 0 {
        0
    } else {
        count_matching(s.drop_last(), payload) + if matches_payload(s.last(), payload) {
            1nat
        } else {
            0nat
        }
    }
}

/// The events of one store, in the order of their identifiers.
pub struct EventStore {
    events: Vec<Event>,
}

impl View for EventStore {
    type V = Seq<EventView>;

    closed spec fn view(&self) -> Seq<EventView> {
        views(self.events@)
    }
}

impl EventStore {
    /// A store is valid when its identifiers follow the positions of its events.
    pub open spec fn wf(&self) -> bool {
        well_numbered(self@)
    }

    pub fn new() -> (r: Self)
        ensures
            r@ == Seq::<EventView>::empty(),
            r.wf(),
    {
        let r = EventStore { events: Vec::new() };
        assert(r@ =~= Seq::<EventView>::empty());
        r
    }

    /// Stores the payload's name and detail under the next identifier, the
    /// current count plus one, and returns the stored event.
    pub fn create(&mut self, payload: Event) -> (r: Event)
        requires
            old(self).wf(),
        ensures
            final(self).wf(),
            r@ == assigned((old(self)@.len() + 1) as nat, payload@),
            final(self)@ == after_create(old(self)@, payload@),
    {
        let id: u128 = self.events.len() as u128 + 1;
        let event = Event::new(decimal_text(id), payload.event_name, payload.event_detail);
        let stored = event.clone();
        let ghost before = self@;
        self.events.push(stored);
        assert(self@ =~= after_create(before, payload@));
        event
    }

    /// Copies out every stored event, in the order of their identifiers.
    pub fn all(&self) -> (r: Vec<Event>)
        ensures
            views(r@) == self@,
    {
        let mut out: Vec<Event> = Vec::new();
        let mut i: usize = 0;
        while i < self.events.len()
            invariant
                i <= self.events@.len(),
                out@.len() == i,
                forall|j: int| 0 <= j < i ==> (#[trigger] out@[j])@ == self.events@[j]@,
            decreases self.events@.len() - i,
        {
            out.push(self.events[i].clone());
            i = i + 1;
        }
        assert(views(out@) =~= views(self.events@));
        out
    }
}

/// No two events of a well-numbered sequence share an identifier.
pub proof fn lemma_ids_unique(s: Seq<EventView>)
    requires
        well_numbered(s),
    ensures
        forall|i: int, j: int| 0 <= i < s.len() && 0 <= j < s.len() && i != j
            ==> #[trigger] s[i].uid != #[trigger] s[j].uid,
{
    assert forall|i: int, j: int| 0 <= i < s.len() && 0 <= j < s.len() && i != j
        implies #[trigger] s[i].uid != #[trigger] s[j].uid by {
        if s[i].uid == s[j].uid {
            lemma_decimal_injective((i + 1) as nat, (j + 1) as nat);
        }
    }
}

/// After a creation on a valid store, a listing holds one more event with the
/// payload's name and detail than before; on a store that held none such, it
/// holds exactly one.
pub proof fn lemma_create_then_all_holds_payload(s: Seq<EventView>, payload: EventView)
    requires
        well_numbered(s),
    ensures
        count_matching(after_create(s, payload), payload) == count_matching(s, payload) + 1,
        count_matching(s, payload) == 0 ==> count_matching(after_create(s, payload), payload)
            == 1,
{
    let t = after_create(s, payload);
    assert(t.drop_last() =~= s);
}

/// Two listings of one store, with no creation between them, hold the same
/// events in the same order.
pub proof fn lemma_reads_agree(store: EventStore, first: Seq<Event>, second: Seq<Event>)
    requires
        views(first) == store@,
        views(second) == store@,
    ensures
        views(first) == views(second),
{
}

/// Creating `n` payloads in turn on a valid store: the store keeps its
/// numbering and grows by exactly `n`
/// events, the new events carry the payloads in order, and no two events
/// share an identifier.
pub proof fn lemma_creates_distinct_ids(s: Seq<EventView>, payloads: Seq<EventView>)
    requires
        well_numbered(s),
    ensures
        after_creates(s, payloads).len() == s.len() + payloads.len(),
        well_numbered(after_creates(s, payloads)),
        forall|k: int| 0 <= k < payloads.len() ==> matches_payload(
            #[trigger] after_creates(s, payloads)[s.len() + k],
            payloads[k],
        ),
        forall|i: int, j: int|
            0 <= i < after_creates(s, payloads).len() && 0 <= j < after_creates(s, payloads).len()
                && i != j ==> #[trigger] after_creates(s, payloads)[i].uid
                != #[trigger] after_creates(s, payloads)[j].uid,
    decreases payloads.len(),
{
    let t = after_creates(s, payloads);
    if payloads.len() > 0 {
        let init = payloads.drop_last();
        lemma_creates_distinct_ids(s, init);
        let u = after_creates(s, init);
        assert(t == after_create(u, payloads.last()));
        assert forall|k: int| 0 <= k < payloads.len() implies matches_payload(
            #[trigger] t[s.len() + k],
            payloads[k],
        ) by {
            if k < init.len() {
                assert(t[s.len() + k] == u[s.len() + k]);
                assert(init[k] == payloads[k]);
            }
        }
    } else {
        assert forall|k: int| 0 <= k < payloads.len() implies matches_payload(
            #[trigger] t[s.len() + k],
            payloads[k],
        ) by {}
    }
    lemma_ids_unique(t);
}

} // verus!
