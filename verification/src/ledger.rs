//! The record of the orders placed through the adapter, by order id.

use crate::canonical::{keys_in_order, lemma_key_le_is_total_order};
use crate::model::{Order, OrderView};
use vstd::prelude::*;
use vstd::string::*;

verus! {

/// The orders placed so far. Each order id is held once; placing an order
/// under an id that is already held puts the new record in the old one's
/// place.
pub struct OrderLedger {
    entries: Vec<Order>,
}

/// Whether two texts are the same.
pub fn same_text(a: &str, b: &str) -> (same: bool)
    ensures
        same == (a@ == b@),
{
    proof {
        lemma_key_le_is_total_order(a@, b@, a@);
    }
    keys_in_order(a, b) && keys_in_order(b, a)
}

impl OrderLedger {
    /// No order id is held twice.
    #[verifier::type_invariant]
    spec fn wf(&self) -> bool {
        forall|i: int, j: int|
            0 <= i < j < self.entries@.len() ==> self.entries@[i].id@ != self.entries@[j].id@
    }

    /// Whether an order is held under `id`.
    spec fn holds(&self, id: Seq<char>) -> bool {
        exists|i: int| 0 <= i < self.entries@.len() && #[trigger] self.entries@[i].id@ == id
    }

    /// The place of the order held under `id`.
    spec fn place_of(&self, id: Seq<char>) -> int {
        choose|i: int| 0 <= i < self.entries@.len() && #[trigger] self.entries@[i].id@ == id
    }

    /// An empty ledger.
    pub fn new() -> (ledger: OrderLedger)
        ensures
            ledger@ == Map::<Seq<char>, OrderView>::empty(),
    {
        let ledger = OrderLedger { entries: Vec::new() };
        assert(ledger@ =~= Map::<Seq<char>, OrderView>::empty());
        ledger
    }

    fn find(&self, id: &str) -> (found: Option<usize>)
        ensures
            match found {
                Some(i) => i < self.entries@.len() && self.entries@[i as int].id@ == id@,
                None => !self.holds(id@),
            },
    {
        let n = self.entries.len();
        for i in 0..n
            invariant
                n == self.entries@.len(),
                forall|j: int| 0 <= j < i ==> (#[trigger] self.entries@[j]).id@ != id@,
        {
            if same_text(self.entries[i].id.as_str(), id) {
                return Some(i);
            }
        }
        None
    }

    /// The order held under `id`, if there is one.
    pub fn get(&self, id: &str) -> (found: Option<&Order>)
        ensures
            match found {
                Some(order) => self@.contains_key(id@) && order@ == self@[id@],
                None => !self@.contains_key(id@),
            },
    {
        match self.find(id) {
            Some(i) => {
                proof {
                    use_type_invariant(self);
                    let at = self.place_of(id@);
                    assert(self.entries@[i as int].id@ == id@);
                    assert(at == i);
                }
                Some(&self.entries[i])
            },
            None => None,
        }
    }

    /// Records `order` under its id, in the place of any order held under
    /// that id before.
    pub fn insert(&mut self, order: Order)
        ensures
            final(self)@ == old(self)@.insert(order.id@, order@),
    {
        proof {
            use_type_invariant(&*self);
        }
        let ghost id = order.id@;
        let ghost record = order@;
        let ghost before = *self;
        let found = self.find(order.id.as_str());
        let mut entries: Vec<Order> = Vec::new();
        std::mem::swap(&mut entries, &mut self.entries);
        match found {
            Some(i) => {
                entries.set(i, order);
            },
            None => {
                entries.push(order);
            },
        }
        let ghost at: int = match found {
            Some(i) => i as int,
            None => entries@.len() - 1,
        };
        proof {
            assert(entries@[at].id@ == id && entries@[at]@ == record);
            assert forall|k: int| 0 <= k < entries@.len() && k != at implies entries@[k]
                == before.entries@[k] && #[trigger] entries@[k].id@ != id by {
                if found is None {
                    assert(!before.holds(id));
                }
            }
            assert forall|a: int, b: int| 0 <= a < b < entries@.len() implies entries@[a].id@
                != entries@[b].id@ by {
                if a != at && b != at {
                    assert(before.entries@[a].id@ != before.entries@[b].id@);
                }
            }
        }
        self.entries = entries;
        proof {
            assert forall|k: Seq<char>| self.holds(k) <==> (before.holds(k) || k == id) by {
                if self.holds(k) {
                    let w = self.place_of(k);
                    if w != at {
                        assert(before.entries@[w].id@ == k);
                    }
                }
                if before.holds(k) && k != id {
                    let w = before.place_of(k);
                    assert(self.entries@[w].id@ == k);
                }
                if k == id {
                    assert(self.entries@[at].id@ == k);
                }
            }
            assert forall|k: Seq<char>| self.holds(k) implies #[trigger] self@[k]
                == before@.insert(id, record)[k] by {
                let w = self.place_of(k);
                if k == id {
                    assert(self.entries@[at].id@ == id);
                    assert(w == at);
                } else {
                    assert(before.entries@[w].id@ == k);
                    assert(before.place_of(k) == w);
                }
            }
            assert(self@ =~= before@.insert(id, record));
        }
    }
}

impl View for OrderLedger {
    type V = Map<Seq<char>, OrderView>;

    closed spec fn view(&self) -> Map<Seq<char>, OrderView> {
        Map::new(|id: Seq<char>| self.holds(id), |id: Seq<char>| self.entries@[self.place_of(id)]@)
    }
}

} // verus!
