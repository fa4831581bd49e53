//! The engine's variable environment.
//!
//! A mutable mapping from variable name to numeric value, owned by the
//! engine and surviving across recompilations.  The host environment
//! injects the elapsed-time value here once per frame, and the oscillator
//! host function reads it back.  (Variables the script itself defines live
//! inside the external interpreter; this mapping holds what the engine
//! injects.)

use vstd::prelude::*;

use crate::fx::Fx;

verus! {

/// The value bound to the first entry named `name`, if any.
pub open spec fn lookup(entries: Seq<(String, Fx)>, name: Seq<char>) -> Option<Fx>
    decreases entries.len(),
{
    if entries.len() == 0 {
        None
    } else if entries[0].0@ == name {
        Some(entries[0].1)
    } else {
        lookup(entries.drop_first(), name)
    }
}

/// A mutable mapping from variable name to numeric value.
pub struct Environment {
    entries: Vec<(String, Fx)>,
}

impl View for Environment {
    type V = Seq<(String, Fx)>;

    closed spec fn view(&self) -> Seq<(String, Fx)> {
        self.entries@
    }
}

/// Binding a name leaves every other name's binding as it was: looking a
/// different name up in the updated entry list gives what it gave before.
proof fn lemma_lookup_update_other(
    entries: Seq<(String, Fx)>,
    i: int,
    val: Fx,
    other: Seq<char>,
)
    requires
        0 <= i < entries.len(),
        entries[i].0@ != other,
    ensures
        lookup(entries.update(i, (entries[i].0, val)), other) == lookup(entries, other),
    decreases entries.len(),
{
    let updated = entries.update(i, (entries[i].0, val));
    if entries[0].0@ == other {
        assert(updated[0] == entries[0]);
    } else {
        if i == 0 {
            assert(updated.drop_first() =~= entries.drop_first());
        } else {
            assert(updated.drop_first() =~= entries.drop_first().update(
                i - 1,
                (entries[i].0, val),
            ));
            lemma_lookup_update_other(entries.drop_first(), i - 1, val, other);
        }
    }
}

/// Binding a name at its first occurrence makes that the name's binding.
proof fn lemma_lookup_update_hit(entries: Seq<(String, Fx)>, i: int, val: Fx)
    requires
        0 <= i < entries.len(),
        forall|j: int| 0 <= j < i ==> entries[j].0@ != entries[i].0@,
    ensures
        lookup(entries.update(i, (entries[i].0, val)), entries[i].0@) == Some(val),
    decreases entries.len(),
{
    let updated = entries.update(i, (entries[i].0, val));
    if i == 0 {
        assert(updated[0] == (entries[0].0, val));
    } else {
        assert(updated[0] == entries[0]);
        assert(updated.drop_first() =~= entries.drop_first().update(i - 1, (entries[i].0, val)));
        lemma_lookup_update_hit(entries.drop_first(), i - 1, val);
    }
}

/// Appending an entry for a name that occurs nowhere in the list binds that
/// name and leaves every other name's binding as it was.
proof fn lemma_lookup_push(entries: Seq<(String, Fx)>, entry: (String, Fx), other: Seq<char>)
    requires
        forall|j: int| 0 <= j < entries.len() ==> entries[j].0@ != entry.0@,
    ensures
        lookup(entries.push(entry), entry.0@) == Some(entry.1),
        other != entry.0@ ==> lookup(entries.push(entry), other) == lookup(entries, other),
    decreases entries.len(),
{
    let pushed = entries.push(entry);
    if entries.len() == 0 {
        assert(pushed[0] == entry);
        assert(pushed.drop_first() =~= Seq::<(String, Fx)>::empty());
        if other != entry.0@ {
            assert(lookup(pushed.drop_first(), other) == None::<Fx>);
            assert(lookup(pushed, other) == None::<Fx>);
        }
    } else {
        assert(pushed[0] == entries[0]);
        assert(pushed.drop_first() =~= entries.drop_first().push(entry));
        lemma_lookup_push(entries.drop_first(), entry, other);
    }
}

impl Environment {
    /// A fresh environment with no bindings.
    pub fn new() -> (e: Environment)
        ensures
            e@.len() == 0,
            forall|name: Seq<char>| lookup(e@, name) == None::<Fx>,
    {
        Environment { entries: Vec::new() }
    }

    /// The value bound to `name`, if any.
    pub fn get(&self, name: &String) -> (r: Option<Fx>)
        ensures
            r == lookup(self@, name@),
    {
        let n = self.entries.len();
        let mut i: usize = 0;
        proof {
            assert(self@.skip(0) =~= self@);
        }
        while i < n
            invariant
                i <= n,
                n == self@.len(),
                lookup(self@, name@) == lookup(self@.skip(i as int), name@),
            decreases n - i,
        {
            proof {
                assert(self@.skip(i as int)[0] == self@[i as int]);
                assert(self@.skip(i as int).drop_first() =~= self@.skip(i as int + 1));
            }
            if self.entries[i].0 == *name {
                return Some(self.entries[i].1);
            }
            i = i + 1;
        }
        proof {
            assert(self@.skip(n as int).len() == 0);
        }
        None
    }

    /// Binds `name` to `val`, overwriting any existing binding and leaving
    /// every other name's binding as it was.
    pub fn set(&mut self, name: &String, val: Fx)
        ensures
            lookup(final(self)@, name@) == Some(val),
            forall|other: Seq<char>|
                other != name@ ==> lookup(final(self)@, other) == lookup(old(self)@, other),
    {
        let n = self.entries.len();
        let mut i: usize = 0;
        while i < n
            invariant
                i <= n,
                n == self@.len(),
                self@ == old(self)@,
                forall|j: int| 0 <= j < i ==> self@[j].0@ != name@,
            decreases n - i,
        {
            if self.entries[i].0 == *name {
                let key = self.entries[i].0.clone();
                proof {
                    assert(key@ == self@[i as int].0@);
                    lemma_lookup_update_hit(self@, i as int, val);
                    assert forall|other: Seq<char>| other != name@ implies lookup(
                        self@.update(i as int, (self@[i as int].0, val)),
                        other,
                    ) == lookup(self@, other) by {
                        lemma_lookup_update_other(self@, i as int, val, other);
                    }
                }
                self.entries.set(i, (key, val));
                proof {
                    assert(self@ =~= old(self)@.update(i as int, (old(self)@[i as int].0, val)));
                }
                return ;
            }
            i = i + 1;
        }
        let key = name.clone();
        proof {
            lemma_lookup_push_all(self@, (key, val));
        }
        self.entries.push((key, val));
    }
}

/// Wraps [`lemma_lookup_push`] to quantify over every other name at once.
proof fn lemma_lookup_push_all(entries: Seq<(String, Fx)>, entry: (String, Fx))
    requires
        forall|j: int| 0 <= j < entries.len() ==> entries[j].0@ != entry.0@,
    ensures
        lookup(entries.push(entry), entry.0@) == Some(entry.1),
        forall|other: Seq<char>|
            other != entry.0@ ==> lookup(entries.push(entry), other) == lookup(entries, other),
{
    assert forall|other: Seq<char>| other != entry.0@ implies lookup(entries.push(entry), other)
        == lookup(entries, other) by {
        lemma_lookup_push(entries, entry, other);
    }
    lemma_lookup_push(entries, entry, entry.0@);
}

} // verus!
