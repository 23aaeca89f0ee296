//! Methods by name.

use vstd::prelude::*;
use vstd::string::StringExecFns;
use crate::method::Program;

verus! {

/// A registry that gives each name the method that was last declared under
/// it.
pub struct MethodRegistry {
    names: Vec<String>,
    methods: Vec<Program>,
}

pub open spec fn index_of(names: Seq<String>, name: Seq<char>) -> int
    decreases names.len(),
{
    if names.len() == 0 {
        -1
    } else if names.last()@ == name {
        names.len() - 1
    } else {
        index_of(names.drop_last(), name)
    }
}

proof fn lemma_index_of(names: Seq<String>, name: Seq<char>)
    ensures
        -1 <= index_of(names, name) < names.len(),
        index_of(names, name) >= 0 ==> names[index_of(names, name)]@ == name,
        index_of(names, name) < 0 ==> forall|i: int| 0 <= i < names.len() ==> names[i]@ != name,
    decreases names.len(),
{
    if names.len() > 0 && names.last()@ != name {
        lemma_index_of(names.drop_last(), name);
        assert forall|i: int| 0 <= i < names.len() && index_of(names, name) < 0 implies names[i]@
            != name by {
            if i < names.len() - 1 {
                assert(names.drop_last()[i] == names[i]);
            }
        }
    }
}

impl View for MethodRegistry {
    type V = Map<Seq<char>, Program>;

    closed spec fn view(&self) -> Map<Seq<char>, Program> {
        Map::new(
            |name: Seq<char>| index_of(self.names@, name) >= 0,
            |name: Seq<char>| self.methods@[index_of(self.names@, name)],
        )
    }
}

impl MethodRegistry {
    #[verifier::type_invariant]
    spec fn inv(self) -> bool {
        &&& self.names@.len() == self.methods@.len()
        &&& forall|i: int, j: int|
            0 <= i < j < self.names@.len() ==> self.names@[i]@ != self.names@[j]@
    }

    /// A registry without names.
    pub fn new() -> (r: Self)
        ensures
            r@ == Map::<Seq<char>, Program>::empty(),
    {
        let r = MethodRegistry { names: Vec::new(), methods: Vec::new() };
        assert(r@ =~= Map::<Seq<char>, Program>::empty());
        r
    }

    fn find(&self, name: &str) -> (r: Option<usize>)
        ensures
            match r {
                Some(i) => i < self.names@.len() && i < self.methods@.len() && self.names@[i as int]@
                    == name@ && index_of(self.names@, name@) == i,
                None => index_of(self.names@, name@) < 0,
            },
    {
        proof {
            use_type_invariant(self);
            lemma_index_of(self.names@, name@);
        }
        let wanted = String::from_str(name);
        let mut i: usize = 0;
        while i < self.names.len()
            invariant
                i <= self.names@.len(),
                self.names@.len() == self.methods@.len(),
                wanted@ == name@,
                forall|j: int| 0 <= j < i ==> self.names@[j]@ != name@,
                forall|a: int, b: int|
                    0 <= a < b < self.names@.len() ==> self.names@[a]@ != self.names@[b]@,
                -1 <= index_of(self.names@, name@) < self.names@.len(),
                index_of(self.names@, name@) >= 0 ==> self.names@[index_of(self.names@, name@)]@
                    == name@,
            decreases self.names@.len() - i,
        {
            if self.names[i] == wanted {
                proof {
                    lemma_index_of(self.names@, name@);
                    let found = index_of(self.names@, name@);
                    if found < 0 {
                        assert(self.names@[i as int]@ != name@);
                    }
                    if found < i {
                        assert(self.names@[found]@ != self.names@[i as int]@);
                    }
                    if found > i {
                        assert(self.names@[i as int]@ != self.names@[found]@);
                    }
                }
                return Some(i);
            }
            i += 1;
        }
        None
    }

    /// Declares a method under a name.  A method that was declared under
    /// the name before gives way.
    pub fn register(&mut self, name: &str, method: Program)
        ensures
            final(self)@ == old(self)@.insert(name@, method),
    {
        proof {
            use_type_invariant(&*self);
        }
        match self.find(name) {
            Some(i) => {
                let ghost names = self.names@;
                let ghost before = self@;
                set_method(&mut self.methods, i, method);
                assert(self@ =~= before.insert(name@, method)) by {
                    assert forall|k: Seq<char>| #[trigger]
                        self@.dom().contains(k) == before.insert(name@, method).dom().contains(
                            k,
                        ) by {
                        lemma_index_of(names, k);
                    }
                    assert forall|k: Seq<char>| self@.dom().contains(k) implies #[trigger] self@[k]
                        == before.insert(name@, method)[k] by {
                        lemma_index_of(names, k);
                    }
                }
            },
            None => {
                let ghost names = self.names@;
                let ghost methods = self.methods@;
                let ghost before = self@;
                let owned = String::from_str(name);
                let mut taken = MethodRegistry { names: Vec::new(), methods: Vec::new() };
                core::mem::swap(self, &mut taken);
                let MethodRegistry { names: mut entries, methods: mut kinds } = taken;
                entries.push(owned);
                kinds.push(method);
                proof {
                    lemma_index_of(names, name@);
                    assert forall|a: int, b: int| 0 <= a < b < entries@.len() implies entries@[a]@
                        != entries@[b]@ by {
                        if b < names.len() {
                            assert(names[a]@ != names[b]@);
                        }
                    }
                }
                *self = MethodRegistry { names: entries, methods: kinds };
                proof {
                    let after = self.names@;
                    assert(after.drop_last() =~= names);
                    assert forall|k: Seq<char>|
                        index_of(after, k) == if k == name@ {
                            names.len() as int
                        } else {
                            index_of(names, k)
                        } by {
                        lemma_index_of(names, k);
                    }
                    assert(self@ =~= before.insert(name@, method)) by {
                        assert forall|k: Seq<char>| self@.dom().contains(k) implies #[trigger]
                            self@[k] == before.insert(name@, method)[k] by {
                            lemma_index_of(names, k);
                        }
                    }
                }
            },
        }
    }

    /// The method that was declared under a name, if there is one.
    pub fn build(&self, name: &str) -> (r: Option<Program>)
        ensures
            r == if self@.dom().contains(name@) {
                Some(self@[name@])
            } else {
                None
            },
    {
        match self.find(name) {
            Some(i) => Some(self.methods[i]),
            None => None,
        }
    }
}

fn set_method(methods: &mut Vec<Program>, i: usize, method: Program)
    requires
        i < old(methods)@.len(),
    ensures
        final(methods)@ == old(methods)@.update(i as int, method),
    no_unwind
{
    methods[i] = method;
}

} // verus!
