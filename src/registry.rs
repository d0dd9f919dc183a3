//! The deployment registry: what is currently deployed, by deployment name.
use vstd::prelude::*;

use crate::model::{ContainerInfo, ContainerInfoView};

verus! {

pub struct DeploymentRegistry {
    names: Vec<String>,
    infos: Vec<ContainerInfo>,
    entries: Ghost<Map<Seq<char>, ContainerInfoView>>,
}

impl View for DeploymentRegistry {
    type V = Map<Seq<char>, ContainerInfoView>;

    /// The container info recorded under each deployment name.
    closed spec fn view(&self) -> Map<Seq<char>, ContainerInfoView> {
        self.entries@
    }
}

impl DeploymentRegistry {
    /// The stored names and infos are exactly the entries of the view, one
    /// position per name.
    pub closed spec fn wf(&self) -> bool {
        &&& self.names@.len() == self.infos@.len()
        &&& forall|i: int, j: int|
            0 <= i < j < self.names@.len() ==> self.names@[i]@ != self.names@[j]@
        &&& forall|i: int|
            0 <= i < self.names@.len() ==> {
                &&& self.entries@.contains_key(#[trigger] self.names@[i]@)
                &&& self.entries@[self.names@[i]@] == self.infos@[i]@
            }
        &&& forall|k: Seq<char>|
            #[trigger] self.entries@.contains_key(k) ==> exists|i: int|
                0 <= i < self.names@.len() && self.names@[i]@ == k
    }

    /// An empty registry.
    pub fn new() -> (r: DeploymentRegistry)
        ensures
            r.wf(),
            r@ == Map::<Seq<char>, ContainerInfoView>::empty(),
    {
        DeploymentRegistry { names: Vec::new(), infos: Vec::new(), entries: Ghost(Map::empty()) }
    }

    fn position(&self, name: &String) -> (r: Option<usize>)
        requires
            self.wf(),
        ensures
            match r {
                None => !self@.contains_key(name@),
                Some(i) => i < self.names@.len() && self.names@[i as int]@ == name@,
            },
    {
        let mut i: usize = 0;
        while i < self.names.len()
            invariant
                self.wf(),
                i <= self.names@.len(),
                forall|j: int| 0 <= j < i ==> self.names@[j]@ != name@,
            decreases self.names@.len() - i,
        {
            if self.names[i] == *name {
                return Some(i);
            }
            i = i + 1;
        }
        None
    }

    /// Records `info` under `name`, replacing what was recorded there.
    pub fn insert(&mut self, name: String, info: ContainerInfo)
        requires
            old(self).wf(),
        ensures
            final(self).wf(),
            final(self)@ == old(self)@.insert(name@, info@),
    {
        let ghost key = name@;
        let ghost value = info@;
        match self.position(&name) {
            Some(i) => {
                self.infos.set(i, info);
                self.entries = Ghost(self.entries@.insert(key, value));
            },
            None => {
                self.names.push(name);
                self.infos.push(info);
                self.entries = Ghost(self.entries@.insert(key, value));
                assert forall|k: Seq<char>| #[trigger] self.entries@.contains_key(k) implies exists|
                    i: int,
                | 0 <= i < self.names@.len() && self.names@[i]@ == k by {
                    if k == key {
                        assert(self.names@[self.names@.len() - 1]@ == k);
                    } else {
                        let j = choose|j: int|
                            0 <= j < old(self).names@.len() && old(self).names@[j]@ == k;
                        assert(self.names@[j]@ == k);
                    }
                }
            },
        }
    }

    /// Forgets what was recorded under `name`; nothing happens when nothing
    /// was.
    pub fn remove(&mut self, name: &str)
        requires
            old(self).wf(),
        ensures
            final(self).wf(),
            final(self)@ == old(self)@.remove(name@),
    {
        let key = String::from_str(name);
        match self.position(&key) {
            None => {
                assert(self@ =~= old(self)@.remove(name@));
            },
            Some(i) => {
                let ghost old_names = self.names@;
                self.names.remove(i);
                self.infos.remove(i);
                self.entries = Ghost(self.entries@.remove(key@));
                assert forall|k: Seq<char>| #[trigger] self.entries@.contains_key(k) implies exists|
                    j: int,
                | 0 <= j < self.names@.len() && self.names@[j]@ == k by {
                    let j = choose|j: int| 0 <= j < old_names.len() && old_names[j]@ == k;
                    if j < i {
                        assert(self.names@[j]@ == k);
                    } else {
                        assert(j != i);
                        assert(self.names@[j - 1]@ == k);
                    }
                }
                assert forall|a: int| 0 <= a < self.names@.len() implies {
                    &&& self.entries@.contains_key(#[trigger] self.names@[a]@)
                    &&& self.entries@[self.names@[a]@] == self.infos@[a]@
                } by {
                    if a < i {
                        assert(old_names[a]@ != old_names[i as int]@);
                    } else {
                        assert(old_names[a + 1]@ != old_names[i as int]@);
                    }
                }
            },
        }
    }

    /// Whether something is recorded under `name`.
    pub fn contains(&self, name: &str) -> (r: bool)
        requires
            self.wf(),
        ensures
            r == self@.contains_key(name@),
    {
        let key = String::from_str(name);
        self.position(&key).is_some()
    }

    /// A copy of what is recorded under `name`, if anything is.
    pub fn get(&self, name: &str) -> (r: Option<ContainerInfo>)
        requires
            self.wf(),
        ensures
            match r {
                None => !self@.contains_key(name@),
                Some(info) => self@.contains_key(name@) && info@ == self@[name@],
            },
    {
        let key = String::from_str(name);
        match self.position(&key) {
            None => None,
            Some(i) => Some(self.infos[i].copy()),
        }
    }

    /// The number of deployments recorded.
    pub fn len(&self) -> (r: usize)
        requires
            self.wf(),
        ensures
            r == self@.dom().len(),
    {
        proof {
            self.lemma_dom_is_names();
        }
        self.names.len()
    }

    /// The recorded deployment names, each once.
    pub fn names(&self) -> (r: Vec<String>)
        requires
            self.wf(),
        ensures
            r@.len() == self@.dom().len(),
            forall|i: int| 0 <= i < r@.len() ==> self@.contains_key(#[trigger] r@[i]@),
    {
        proof {
            self.lemma_dom_is_names();
        }
        let mut r: Vec<String> = Vec::new();
        let mut i: usize = 0;
        while i < self.names.len()
            invariant
                self.wf(),
                i <= self.names@.len(),
                r@.len() == i,
                forall|j: int| 0 <= j < i ==> #[trigger] r@[j] == self.names@[j],
            decreases self.names@.len() - i,
        {
            r.push(self.names[i].clone());
            i = i + 1;
        }
        r
    }

    /// Copies of every recorded deployment with its name, each name once.
    pub fn list(&self) -> (r: Vec<(String, ContainerInfo)>)
        requires
            self.wf(),
        ensures
            r@.len() == self@.dom().len(),
            forall|i: int|
                0 <= i < r@.len() ==> {
                    &&& self@.contains_key((#[trigger] r@[i]).0@)
                    &&& self@[r@[i].0@] == r@[i].1@
                },
            forall|i: int, j: int| 0 <= i < j < r@.len() ==> r@[i].0@ != r@[j].0@,
    {
        proof {
            self.lemma_dom_is_names();
        }
        let mut r: Vec<(String, ContainerInfo)> = Vec::new();
        let mut i: usize = 0;
        while i < self.names.len()
            invariant
                self.wf(),
                i <= self.names@.len(),
                r@.len() == i,
                forall|j: int|
                    0 <= j < i ==> (#[trigger] r@[j]).0@ == self.names@[j]@ && r@[j].1@
                        == self.infos@[j]@,
            decreases self.names@.len() - i,
        {
            r.push((self.names[i].clone(), self.infos[i].copy()));
            i = i + 1;
        }
        r
    }

    proof fn lemma_dom_is_names(&self)
        requires
            self.wf(),
        ensures
            self@.dom() == self.names@.map_values(|s: String| s@).to_set(),
            self@.dom().len() == self.names@.len(),
    {
        let views = self.names@.map_values(|s: String| s@);
        assert(self@.dom() =~= views.to_set()) by {
            assert forall|k: Seq<char>| self@.dom().contains(k) implies views.to_set().contains(k) by {
                let j = choose|j: int| 0 <= j < self.names@.len() && self.names@[j]@ == k;
                assert(views[j] == k);
            }
            assert forall|k: Seq<char>| views.to_set().contains(k) implies self@.dom().contains(k) by {
                let j = choose|j: int| 0 <= j < views.len() && views[j] == k;
                assert(self.entries@.contains_key(self.names@[j]@));
            }
        }
        assert(views.no_duplicates());
        views.unique_seq_to_set();
    }
}

/// Deployments recorded under different names are independent: both are
/// kept, and the order in which they were recorded does not matter.
pub proof fn lemma_independent_records(
    m: Map<Seq<char>, ContainerInfoView>,
    name1: Seq<char>,
    info1: ContainerInfoView,
    name2: Seq<char>,
    info2: ContainerInfoView,
)
    requires
        name1 != name2,
    ensures
        m.insert(name1, info1).insert(name2, info2) == m.insert(name2, info2).insert(name1, info1),
        m.insert(name1, info1).insert(name2, info2).contains_key(name1),
        m.insert(name1, info1).insert(name2, info2)[name1] == info1,
        m.insert(name1, info1).insert(name2, info2).contains_key(name2),
        m.insert(name1, info1).insert(name2, info2)[name2] == info2,
{
    assert(m.insert(name1, info1).insert(name2, info2) =~= m.insert(name2, info2).insert(
        name1,
        info1,
    ));
}

/// Forgetting a name that is not recorded changes nothing.
pub proof fn lemma_remove_absent_is_noop(m: Map<Seq<char>, ContainerInfoView>, name: Seq<char>)
    requires
        !m.contains_key(name),
    ensures
        m.remove(name) == m,
{
    assert(m.remove(name) =~= m);
}

} // verus!
