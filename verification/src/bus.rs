//! The message bus: a set of elements, each with its own identifier, that
//! pass every message on to every element but its sender.
use vstd::prelude::*;

verus! {

/// The identifier of an element on a bus.
pub type BusUuid = u64;

/// Something that can be put on a bus: it has an identifier.
pub trait BusElement {
    /// Returns the element's identifier.
    fn uuid(&self) -> BusUuid;
}

/// The elements of a bus with their identifiers, in the order in which they
/// joined. No two of them share an identifier.
pub struct Bus<E> {
    elements: Vec<(BusUuid, E)>,
}

/// The identifiers of a sequence of elements.
pub open spec fn ids_of<E>(s: Seq<(BusUuid, E)>) -> Seq<BusUuid> {
    s.map_values(|e: (BusUuid, E)| e.0)
}

/// The positions of the elements that receive a message sent by `sender`:
/// every element whose identifier differs from it, in order.
pub open spec fn recipients_of(ids: Seq<BusUuid>, sender: BusUuid) -> Seq<int>
    decreases ids.len(),
{
    if ids.len() == 0 {
        seq![]
    } else {
        let rest = recipients_of(ids.drop_last(), sender);
        if ids.last() != sender {
            rest.push(ids.len() - 1)
        } else {
            rest
        }
    }
}

/// The members after adding `(id, e)`: unchanged when an element with
/// identifier `id` is there already, else with it appended.
pub open spec fn added_members<E>(members: Seq<(BusUuid, E)>, id: BusUuid, e: E) -> Seq<
    (BusUuid, E),
> {
    if ids_of(members).contains(id) {
        members
    } else {
        members.push((id, e))
    }
}

impl<E> Bus<E> {
    /// The identifiers of the elements, in order.
    pub closed spec fn ids(&self) -> Seq<BusUuid> {
        ids_of(self.elements@)
    }

    /// The elements with their identifiers, in order.
    pub closed spec fn members(&self) -> Seq<(BusUuid, E)> {
        self.elements@
    }

    /// No identifier occurs twice.
    pub closed spec fn wf(&self) -> bool {
        self.ids().no_duplicates()
    }

    /// An empty bus.
    pub fn new() -> (b: Bus<E>)
        ensures
            b.wf(),
            b.members() == Seq::<(BusUuid, E)>::empty(),
    {
        let b = Bus { elements: Vec::new() };
        assert(b.ids() =~= Seq::<BusUuid>::empty());
        b
    }

    /// The number of elements.
    pub fn len(&self) -> (n: usize)
        ensures
            n == self.members().len(),
    {
        self.elements.len()
    }

    /// The element at position `i`.
    pub fn element(&self, i: usize) -> (e: &E)
        requires
            i < self.members().len(),
        ensures
            *e == self.members()[i as int].1,
    {
        &self.elements[i].1
    }

    /// Whether an element with identifier `id` is on the bus.
    pub fn contains(&self, id: BusUuid) -> (r: bool)
        ensures
            r == self.ids().contains(id),
    {
        let mut i: usize = 0;
        while i < self.elements.len()
            invariant
                i <= self.elements.len(),
                forall|j: int| 0 <= j < i ==> self.ids()[j] != id,
            decreases self.elements.len() - i,
        {
            if self.elements[i].0 == id {
                assert(self.ids()[i as int] == id);
                return true;
            }
            i += 1;
        }
        false
    }

    /// Adds an element with identifier `id`, unless an element with that
    /// identifier is already on the bus. Returns whether it was added.
    pub fn add_element(&mut self, id: BusUuid, element: E) -> (added: bool)
        requires
            old(self).wf(),
        ensures
            final(self).wf(),
            added == !old(self).ids().contains(id),
            final(self).ids().contains(id),
            final(self).members() == added_members(old(self).members(), id, element),
    {
        if self.contains(id) {
            return false;
        }
        assert(!ids_of(self.members()).contains(id));
        let ghost old_ids = self.ids();
        self.elements.push((id, element));
        assert(self.ids() =~= old_ids.push(id));
        assert(self.ids()[old_ids.len() as int] == id);
        true
    }

    /// The positions of the elements that a message from `sender` reaches:
    /// every element but the sender, in order.
    pub fn recipients(&self, sender: BusUuid) -> (r: Vec<usize>)
        ensures
            r@.map_values(|i: usize| i as int) == recipients_of(self.ids(), sender),
    {
        let mut out: Vec<usize> = Vec::new();
        let mut i: usize = 0;
        while i < self.elements.len()
            invariant
                i <= self.elements.len(),
                out@.map_values(|k: usize| k as int) == recipients_of(
                    self.ids().take(i as int),
                    sender,
                ),
            decreases self.elements.len() - i,
        {
            let ghost prev = out@;
            assert(self.ids().take(i + 1).drop_last() =~= self.ids().take(i as int));
            if self.elements[i].0 != sender {
                out.push(i);
                assert(out@.map_values(|k: usize| k as int) =~= prev.map_values(
                    |k: usize| k as int,
                ).push(i as int));
            }
            i += 1;
        }
        assert(self.ids().take(i as int) =~= self.ids());
        out
    }
}

proof fn lemma_recipients_spec(ids: Seq<BusUuid>, sender: BusUuid)
    ensures
        forall|k: int|
            0 <= k < recipients_of(ids, sender).len() ==> 0 <= #[trigger] recipients_of(
                ids,
                sender,
            )[k] < ids.len() && ids[recipients_of(ids, sender)[k]] != sender,
        forall|j: int|
            0 <= j < ids.len() && ids[j] != sender ==> #[trigger] recipients_of(
                ids,
                sender,
            ).contains(j),
        forall|a: int, b: int|
            0 <= a < b < recipients_of(ids, sender).len() ==> recipients_of(ids, sender)[a]
                < recipients_of(ids, sender)[b],
    decreases ids.len(),
{
    if ids.len() > 0 {
        let prev = ids.drop_last();
        lemma_recipients_spec(prev, sender);
        let rest = recipients_of(prev, sender);
        assert forall|j: int| 0 <= j < ids.len() && ids[j] != sender implies #[trigger] recipients_of(
            ids,
            sender,
        ).contains(j) by {
            if j < ids.len() - 1 {
                assert(prev[j] == ids[j]);
                assert(rest.contains(j));
                let k = choose|k: int| 0 <= k < rest.len() && rest[k] == j;
                if ids.last() != sender {
                    assert(rest.push(ids.len() - 1)[k] == j);
                }
                assert(recipients_of(ids, sender)[k] == j);
            } else {
                assert(recipients_of(ids, sender).last() == j);
            }
        }
    }
}

/// A message sent on a bus reaches every element except its sender, each
/// exactly once, in the order in which the elements joined; the sender never
/// receives its own message.
pub proof fn lemma_send_reaches_all_but_sender<E>(bus: Bus<E>, sender: BusUuid)
    requires
        bus.wf(),
    ensures
        forall|k: int|
            0 <= k < recipients_of(bus.ids(), sender).len() ==> #[trigger] bus.ids()[recipients_of(
                bus.ids(),
                sender,
            )[k]] != sender,
        forall|j: int|
            0 <= j < bus.ids().len() && bus.ids()[j] != sender ==> #[trigger] recipients_of(
                bus.ids(),
                sender,
            ).contains(j),
        recipients_of(bus.ids(), sender).no_duplicates(),
{
    lemma_recipients_spec(bus.ids(), sender);
    let r = recipients_of(bus.ids(), sender);
    assert forall|a: int, b: int| 0 <= a < r.len() && 0 <= b < r.len() && a != b implies r[a]
        != r[b] by {
        if a < b {
            assert(r[a] < r[b]);
        } else {
            assert(r[b] < r[a]);
        }
    }
}

/// Adding an element with an identifier that is already on the bus changes
/// nothing: adding `id` twice leaves the bus as adding it once.
pub proof fn lemma_add_element_idempotent<E>(members: Seq<(BusUuid, E)>, id: BusUuid, e: E, e2: E)
    ensures
        added_members(added_members(members, id, e), id, e2) == added_members(members, id, e),
{
    if !ids_of(members).contains(id) {
        assert(ids_of(members.push((id, e)))[members.len() as int] == id);
    }
}

} // verus!
