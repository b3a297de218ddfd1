//! Toy manager for switching between toys. The active toy always exists: switching to an
//! unknown id leaves the active toy unchanged.
use vstd::prelude::*;

use super::registry::{toy_id_order, toy_order_spec};
use super::Toy;

verus! {

/// A registered toy with its unique id and its display name.
pub struct ToyEntry<T> {
    pub id: String,
    pub name: String,
    pub toy: T,
}

/// Abstract state of a toy manager: the registered ids, names and toys (in registration
/// order) and the position of the active toy.
pub ghost struct ToyManagerState<T> {
    pub ids: Seq<Seq<char>>,
    pub names: Seq<Seq<char>>,
    pub toys: Seq<T>,
    pub active: int,
}

/// The registered toys and which one is active.
pub struct ToyManager<T> {
    ids: Vec<String>,
    names: Vec<String>,
    toys: Vec<T>,
    active: usize,
}

/// The position of the entry registered under `id`, if any.
pub open spec fn position_of(ids: Seq<Seq<char>>, id: Seq<char>) -> Option<int> {
    if exists|i: int| 0 <= i < ids.len() && ids[i] == id {
        Some(choose|i: int| 0 <= i < ids.len() && ids[i] == id)
    } else {
        None
    }
}

/// No id is registered twice.
pub open spec fn distinct_ids(ids: Seq<Seq<char>>) -> bool {
    forall|i: int, j: int| 0 <= i < j < ids.len() ==> ids[i] != ids[j]
}

/// The `(id, name)` pairs listed for the toys, following `order` and skipping ids that are
/// not registered.
pub open spec fn listed(order: Seq<Seq<char>>, ids: Seq<Seq<char>>, names: Seq<Seq<char>>) -> Seq<(Seq<char>, Seq<char>)>
    decreases order.len(),
{
    if order.len() == 0 {
        seq![]
    } else {
        let rest = listed(order.drop_last(), ids, names);
        match position_of(ids, order.last()) {
            Some(i) => rest.push((ids[i], names[i])),
            None => rest,
        }
    }
}

impl<T> View for ToyManager<T> {
    type V = ToyManagerState<T>;

    closed spec fn view(&self) -> ToyManagerState<T> {
        ToyManagerState {
            ids: self.ids@.map_values(|s: String| s@),
            names: self.names@.map_values(|s: String| s@),
            toys: self.toys@,
            active: self.active as int,
        }
    }
}

/// Finds the position of the given id.
fn find_id(ids: &Vec<String>, id: &String) -> (r: Option<usize>)
    ensures
        r matches Some(i) ==> i < ids@.len() && ids@[i as int]@ == id@,
        r is None ==> forall|i: int| 0 <= i < ids@.len() ==> ids@[i]@ != id@,
{
    let mut i: usize = 0;
    while i < ids.len()
        invariant
            i <= ids@.len(),
            forall|j: int| 0 <= j < i ==> ids@[j]@ != id@,
        decreases ids@.len() - i,
    {
        if ids[i] == *id {
            return Some(i);
        }
        i = i + 1;
    }
    None
}

impl<T> ToyManager<T> {
    /// The active toy is registered and ids are unique.
    #[verifier::type_invariant]
    closed spec fn well_formed(&self) -> bool {
        &&& self.ids@.len() == self.names@.len()
        &&& self.ids@.len() == self.toys@.len()
        &&& self.active < self.toys@.len()
        &&& distinct_ids(self.ids@.map_values(|s: String| s@))
    }

    /// A manager over the given toys, with the first toy of the display order active; `None`
    /// when that toy is not among them.
    pub fn new(toys: Vec<ToyEntry<T>>) -> (r: Option<Self>)
        requires
            distinct_ids(toys@.map_values(|e: ToyEntry<T>| e.id@)),
        ensures
            r is Some <==> position_of(toys@.map_values(|e: ToyEntry<T>| e.id@), toy_order_spec()[0]) is Some,
            r matches Some(m) ==> {
                &&& m@.ids == toys@.map_values(|e: ToyEntry<T>| e.id@)
                &&& m@.names == toys@.map_values(|e: ToyEntry<T>| e.name@)
                &&& m@.toys == toys@.map_values(|e: ToyEntry<T>| e.toy)
                &&& m@.ids[m@.active] == toy_order_spec()[0]
            },
    {
        let ghost entries = toys@;
        let mut toys = toys;
        let mut ids: Vec<String> = Vec::new();
        let mut names: Vec<String> = Vec::new();
        let mut items: Vec<T> = Vec::new();
        // Entries are taken from the back and put in front, keeping registration order.
        while toys.len() > 0
            invariant
                toys@ == entries.take(toys@.len() as int),
                toys@.len() <= entries.len(),
                ids@.map_values(|s: String| s@) == entries.skip(toys@.len() as int).map_values(|e: ToyEntry<T>| e.id@),
                names@.map_values(|s: String| s@) == entries.skip(toys@.len() as int).map_values(|e: ToyEntry<T>| e.name@),
                items@ == entries.skip(toys@.len() as int).map_values(|e: ToyEntry<T>| e.toy),
            decreases toys@.len(),
        {
            let entry = toys.pop().unwrap();
            proof {
                assert(toys@ =~= entries.take(toys@.len() as int));
            }
            let ghost old_ids = ids@;
            let ghost old_names = names@;
            let ghost old_items = items@;
            ids.insert(0, entry.id);
            names.insert(0, entry.name);
            items.insert(0, entry.toy);
            proof {
                let rest = entries.skip(toys@.len() as int);
                let old_rest = entries.skip(toys@.len() as int + 1);
                assert(rest =~= seq![entry].add(old_rest));
                assert(old_ids.map_values(|s: String| s@).len() == old_ids.len());
                assert(old_rest.map_values(|e: ToyEntry<T>| e.id@).len() == old_rest.len());
                assert(old_ids.len() == old_rest.len());
                assert(ids@.len() == old_ids.len() + 1);
                assert(old_names.map_values(|s: String| s@).len() == old_names.len());
                assert(old_rest.map_values(|e: ToyEntry<T>| e.name@).len() == old_rest.len());
                assert(names@.len() == old_names.len() + 1);
                assert forall|j: int| 0 <= j < ids@.len() implies #[trigger] ids@[j]@ == rest[j].id@ by {
                    assert(ids@.len() == rest.len());
                    if j == 0 {
                        assert(rest[0] == entry);
                    } else {
                        assert(rest[j] == old_rest[j - 1]);
                        assert(ids@[j] == old_ids[j - 1]);
                        assert(old_ids.map_values(|s: String| s@)[j - 1] == old_rest.map_values(|e: ToyEntry<T>| e.id@)[j - 1]);
                    }
                }
                assert forall|j: int| 0 <= j < names@.len() implies #[trigger] names@[j]@ == rest[j].name@ by {
                    assert(names@.len() == rest.len());
                    if j == 0 {
                        assert(rest[0] == entry);
                    } else {
                        assert(rest[j] == old_rest[j - 1]);
                        assert(names@[j] == old_names[j - 1]);
                        assert(old_names.map_values(|s: String| s@)[j - 1] == old_rest.map_values(|e: ToyEntry<T>| e.name@)[j - 1]);
                    }
                }
                assert(ids@.map_values(|s: String| s@) =~= rest.map_values(|e: ToyEntry<T>| e.id@));
                assert(names@.map_values(|s: String| s@) =~= rest.map_values(|e: ToyEntry<T>| e.name@));
                assert(items@ =~= rest.map_values(|e: ToyEntry<T>| e.toy));
            }
        }
        proof {
            assert(entries.skip(0) =~= entries);
        }
        let order = toy_id_order();
        let first = order[0].to_owned();
        match find_id(&ids, &first) {
            Some(active) => {
                proof {
                    let all = entries.map_values(|e: ToyEntry<T>| e.id@);
                    assert(ids@.map_values(|s: String| s@)[active as int] == ids@[active as int]@);
                    assert(all[active as int] == toy_order_spec()[0]);
                }
                let m = Self { ids, names, toys: items, active };
                Some(m)
            },
            None => {
                proof {
                    let all = entries.map_values(|e: ToyEntry<T>| e.id@);
                    assert forall|i: int| 0 <= i < all.len() implies all[i] != toy_order_spec()[0] by {
                        assert(ids@[i]@ != first@);
                    }
                }
                None
            },
        }
    }

    /// Returns the currently active toy.
    pub fn active_toy(&self) -> (r: &T)
        ensures
            0 <= self@.active < self@.toys.len(),
            *r == self@.toys[self@.active],
    {
        proof {
            use_type_invariant(self);
        }
        &self.toys[self.active]
    }

    /// Returns the currently active toy for modification.
    pub fn active_toy_mut(&mut self) -> (r: &mut T)
        ensures
            0 <= old(self)@.active < old(self)@.toys.len(),
            *r == old(self)@.toys[old(self)@.active],
            final(self)@ == (ToyManagerState {
                toys: old(self)@.toys.update(old(self)@.active, *final(r)),
                ..old(self)@
            }),
    {
        proof {
            use_type_invariant(&*self);
        }
        let active = self.active;
        &mut self.toys[active]
    }

    /// Makes the toy registered under `id` active; unknown ids are ignored.
    pub fn switch_to(&mut self, id: &str)
        ensures
            final(self)@.ids == old(self)@.ids,
            final(self)@.names == old(self)@.names,
            final(self)@.toys == old(self)@.toys,
            final(self)@.active == match position_of(old(self)@.ids, id@) {
                Some(i) => i,
                None => old(self)@.active,
            },
    {
        proof {
            use_type_invariant(&*self);
        }
        let wanted = id.to_owned();
        if let Some(i) = find_id(&self.ids, &wanted) {
            proof {
                let ids = self@.ids;
                assert(ids[i as int] == id@);
                let c = choose|j: int| 0 <= j < ids.len() && ids[j] == id@;
                if c != i as int {
                    if c < i as int {
                        assert(ids[c] != ids[i as int]);
                    } else {
                        assert(ids[i as int] != ids[c]);
                    }
                }
            }
            self.active = i;
        } else {
            proof {
                assert forall|j: int| 0 <= j < self@.ids.len() implies self@.ids[j] != id@ by {
                    assert(self.ids@[j]@ != wanted@);
                }
            }
        }
    }

    /// The `(id, name)` pairs of the registered toys, in display order.
    pub fn toy_list(&self) -> (r: Vec<(&str, &str)>)
        ensures
            r@.map_values(|p: (&str, &str)| (p.0@, p.1@)) == listed(toy_order_spec(), self@.ids, self@.names),
    {
        proof {
            use_type_invariant(self);
        }
        let order = toy_id_order();
        let mut list: Vec<(&str, &str)> = Vec::new();
        let mut k: usize = 0;
        while k < order.len()
            invariant
                k <= order@.len(),
                order@.len() == toy_order_spec().len(),
                forall|i: int| 0 <= i < order@.len() ==> (#[trigger] order@[i])@ == toy_order_spec()[i],
                distinct_ids(self@.ids),
                self.ids@.len() == self.names@.len(),
                list@.map_values(|p: (&str, &str)| (p.0@, p.1@)) == listed(toy_order_spec().take(k as int), self@.ids, self@.names),
            decreases order@.len() - k,
        {
            let wanted = order[k].to_owned();
            let ghost prefix = toy_order_spec().take(k as int + 1);
            proof {
                assert(prefix.drop_last() =~= toy_order_spec().take(k as int));
                assert(prefix.last() == wanted@);
            }
            match find_id(&self.ids, &wanted) {
                Some(i) => {
                    list.push((self.ids[i].as_str(), self.names[i].as_str()));
                    proof {
                        let ids = self@.ids;
                        let c = choose|j: int| 0 <= j < ids.len() && ids[j] == wanted@;
                        assert(ids[i as int] == wanted@);
                        if c != i as int {
                            if c < i as int {
                                assert(ids[c] != ids[i as int]);
                            } else {
                                assert(ids[i as int] != ids[c]);
                            }
                        }
                        assert(list@.map_values(|p: (&str, &str)| (p.0@, p.1@)) =~= listed(prefix, self@.ids, self@.names));
                    }
                },
                None => {
                    proof {
                        assert forall|j: int| 0 <= j < self@.ids.len() implies self@.ids[j] != wanted@ by {
                            assert(self.ids@[j]@ != wanted@);
                        }
                        assert(list@.map_values(|p: (&str, &str)| (p.0@, p.1@)) =~= listed(prefix, self@.ids, self@.names));
                    }
                },
            }
            k = k + 1;
        }
        proof {
            assert(toy_order_spec().take(order@.len() as int) =~= toy_order_spec());
        }
        list
    }

    /// The id of the active toy.
    pub fn active_toy_id(&self) -> (r: &str)
        ensures
            0 <= self@.active < self@.ids.len(),
            r@ == self@.ids[self@.active],
    {
        proof {
            use_type_invariant(self);
        }
        self.ids[self.active].as_str()
    }

    /// The display name of the active toy.
    pub fn active_toy_name(&self) -> (r: &str)
        ensures
            0 <= self@.active < self@.names.len(),
            r@ == self@.names[self@.active],
    {
        proof {
            use_type_invariant(self);
        }
        self.names[self.active].as_str()
    }
}

impl<T: Toy> ToyManager<T> {
    /// Resets the active toy, which is then in its default state; the other toys, the ids,
    /// the names and which toy is active stay as they were.
    pub fn reset_active(&mut self)
        ensures
            0 <= old(self)@.active < old(self)@.toys.len(),
            final(self)@.toys[old(self)@.active].in_default_state(),
            final(self)@.ids == old(self)@.ids,
            final(self)@.names == old(self)@.names,
            final(self)@.active == old(self)@.active,
            final(self)@.toys.len() == old(self)@.toys.len(),
            forall|i: int|
                0 <= i < old(self)@.toys.len() && i != old(self)@.active ==> final(self)@.toys[i]
                    == old(self)@.toys[i],
    {
        proof {
            use_type_invariant(&*self);
        }
        let active = self.active;
        self.toys[active].reset();
    }
}

} // verus!
