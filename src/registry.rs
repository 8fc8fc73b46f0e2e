use vstd::prelude::*;

use crate::marker::Base;

verus! {

/// One live overlay: a volume and the base it is layered on.
pub struct Link {
    pub volume: String,
    pub base: Base,
}

/// Which live volumes use which base.
///
/// Modelled as a map from each volume to the path of its base, so a volume
/// is recorded under at most one base; the volumes of a base are `users`.
pub struct Registry {
    links: Vec<Link>,
    model: Ghost<Map<Seq<char>, Seq<char>>>,
}

impl View for Registry {
    type V = Map<Seq<char>, Seq<char>>;

    closed spec fn view(&self) -> Map<Seq<char>, Seq<char>> {
        self.model@
    }
}

/// The volumes that `reg` records under the base at `base`.
pub open spec fn users(reg: Map<Seq<char>, Seq<char>>, base: Seq<char>) -> Set<Seq<char>> {
    Set::new(|v: Seq<char>| reg.contains_key(v) && reg[v] == base)
}

impl Registry {
    /// The links agree with the model: one link per recorded volume.
    pub closed spec fn wf(&self) -> bool {
        &&& forall|i: int|
            0 <= i < self.links@.len() ==> {
                &&& #[trigger] self.model@.contains_key(self.links@[i].volume@)
                &&& self.model@[self.links@[i].volume@] == self.links@[i].base@
            }
        &&& forall|v: Seq<char>|
            #[trigger] self.model@.contains_key(v) ==> exists|i: int|
                0 <= i < self.links@.len() && self.links@[i].volume@ == v
        &&& forall|i: int, j: int|
            0 <= i < j < self.links@.len() ==> #[trigger] self.links@[i].volume@
                != #[trigger] self.links@[j].volume@
    }

    /// An empty registry.
    pub fn new() -> (r: Registry)
        ensures
            r.wf(),
            r@ == Map::<Seq<char>, Seq<char>>::empty(),
    {
        Registry { links: Vec::new(), model: Ghost(Map::empty()) }
    }

    /// Where the link of `volume` stands, if it has one.
    fn position(&self, volume: &str) -> (r: Option<usize>)
        requires
            self.wf(),
        ensures
            r matches Some(k) ==> k < self.links@.len() && self.links@[k as int].volume@ == volume@,
            r is None ==> !self@.contains_key(volume@),
    {
        let wanted = String::from_str(volume);
        let mut i: usize = 0;
        while i < self.links.len()
            invariant
                self.wf(),
                wanted@ == volume@,
                i <= self.links@.len(),
                forall|k: int| 0 <= k < i ==> self.links@[k].volume@ != volume@,
            decreases self.links@.len() - i,
        {
            if self.links[i].volume == wanted {
                return Some(i);
            }
            i = i + 1;
        }
        proof {
            if self@.contains_key(volume@) {
                let k = choose|k: int| 0 <= k < self.links@.len() && self.links@[k].volume@ == volume@;
                assert(self.links@[k].volume@ != volume@);
            }
        }
        None
    }

    /// Whether `volume` is recorded under some base.
    pub fn in_use(&self, volume: &str) -> (r: bool)
        requires
            self.wf(),
        ensures
            r == self@.contains_key(volume@),
    {
        match self.position(volume) {
            Some(k) => {
                assert(self@.contains_key(self.links@[k as int].volume@));
                true
            },
            None => false,
        }
    }

    /// Whether no volume is recorded under `base`.
    pub fn unreferenced(&self, base: &Base) -> (r: bool)
        requires
            self.wf(),
        ensures
            r == users(self@, base@).is_empty(),
    {
        let mut i: usize = 0;
        while i < self.links.len()
            invariant
                self.wf(),
                i <= self.links@.len(),
                forall|k: int| 0 <= k < i ==> self.links@[k].base@ != base@,
            decreases self.links@.len() - i,
        {
            if self.links[i].base.0 == base.0 {
                assert(users(self@, base@).contains(self.links@[i as int].volume@));
                return false;
            }
            i = i + 1;
        }
        assert(users(self@, base@) =~= Set::empty());
        true
    }

    /// Forgets `volume`, wherever it was recorded.
    pub fn dissociate(&mut self, volume: &str)
        requires
            old(self).wf(),
        ensures
            final(self).wf(),
            final(self)@ == old(self)@.remove(volume@),
    {
        match self.position(volume) {
            None => {
                assert(self.model@.remove(volume@) =~= self.model@);
            },
            Some(k) => {
                let ghost before = self.links@;
                self.links.remove(k);
                self.model = Ghost(self.model@.remove(volume@));
                proof {
                    assert forall|i: int| 0 <= i < self.links@.len() implies {
                        &&& #[trigger] self.model@.contains_key(self.links@[i].volume@)
                        &&& self.model@[self.links@[i].volume@] == self.links@[i].base@
                    } by {
                        if i < k {
                            assert(self.links@[i] == before[i]);
                            assert(before[i].volume@ != before[k as int].volume@);
                        } else {
                            assert(self.links@[i] == before[i + 1]);
                            assert(before[k as int].volume@ != before[i + 1].volume@);
                        }
                    }
                    assert forall|v: Seq<char>| #[trigger] self.model@.contains_key(v) implies exists|i: int|
                        0 <= i < self.links@.len() && self.links@[i].volume@ == v by {
                        let j = choose|j: int| 0 <= j < before.len() && before[j].volume@ == v;
                        if j < k {
                            assert(self.links@[j] == before[j]);
                        } else {
                            assert(j != k);
                            assert(self.links@[j - 1] == before[j]);
                        }
                    }
                    assert forall|i: int, j: int| 0 <= i < j < self.links@.len() implies #[trigger] self.links@[i].volume@
                        != #[trigger] self.links@[j].volume@ by {
                        let i0 = if i < k { i } else { i + 1 };
                        let j0 = if j < k { j } else { j + 1 };
                        assert(self.links@[i] == before[i0]);
                        assert(self.links@[j] == before[j0]);
                        assert(before[i0].volume@ != before[j0].volume@);
                    }
                }
            },
        }
    }

    /// Records `volume` under `base`, replacing any earlier record of it.
    pub fn associate(&mut self, base: &Base, volume: &str)
        requires
            old(self).wf(),
        ensures
            final(self).wf(),
            final(self)@ == old(self)@.insert(volume@, base@),
    {
        self.dissociate(volume);
        let ghost before = self.links@;
        let ghost before_model = self.model@;
        self.links.push(Link { volume: String::from_str(volume), base: base.duplicate() });
        self.model = Ghost(self.model@.insert(volume@, base@));
        proof {
            assert(self.links@[before.len() as int].volume@ == volume@);
            assert forall|i: int| 0 <= i < self.links@.len() implies {
                &&& #[trigger] self.model@.contains_key(self.links@[i].volume@)
                &&& self.model@[self.links@[i].volume@] == self.links@[i].base@
            } by {
                if i < before.len() {
                    assert(self.links@[i] == before[i]);
                }
            }
            assert forall|v: Seq<char>| #[trigger] self.model@.contains_key(v) implies exists|i: int|
                0 <= i < self.links@.len() && self.links@[i].volume@ == v by {
                if v != volume@ {
                    let j = choose|j: int| 0 <= j < before.len() && before[j].volume@ == v;
                    assert(self.links@[j] == before[j]);
                }
            }
            assert forall|i: int, j: int| 0 <= i < j < self.links@.len() implies #[trigger] self.links@[i].volume@
                != #[trigger] self.links@[j].volume@ by {
                if j == before.len() {
                    assert(self.links@[i] == before[i]);
                    assert(before_model.contains_key(before[i].volume@));
                } else {
                    assert(self.links@[i] == before[i]);
                    assert(self.links@[j] == before[j]);
                }
            }
        }
    }
}

/// No volume is ever recorded under two bases.
pub proof fn lemma_one_base_per_volume(
    reg: Map<Seq<char>, Seq<char>>,
    volume: Seq<char>,
    b1: Seq<char>,
    b2: Seq<char>,
)
    requires
        users(reg, b1).contains(volume),
        users(reg, b2).contains(volume),
    ensures
        b1 == b2,
{
}

} // verus!
