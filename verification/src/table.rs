//! Lists of names, each with what it stands for.
use vstd::prelude::*;

verus! {

/// What the first of the entries with the given name holds.
pub open spec fn lookup<V>(entries: Seq<(String, V)>, name: Seq<char>) -> Option<V>
    decreases entries.len(),
{
    if entries.len() == 0 {
        None
    } else if entries[0].0@ == name {
        Some(entries[0].1)
    } else {
        lookup(entries.drop_first(), name)
    }
}

pub(crate) proof fn lemma_lookup_absent<V>(entries: Seq<(String, V)>, name: Seq<char>)
    ensures
        lookup(entries, name) is None <==> forall|i: int|
            0 <= i < entries.len() ==> (#[trigger] entries[i]).0@ != name,
    decreases entries.len(),
{
    if entries.len() > 0 {
        let rest = entries.drop_first();
        lemma_lookup_absent(rest, name);
        if entries[0].0@ != name {
            if lookup(rest, name) is None {
                assert forall|i: int| 0 <= i < entries.len() implies (#[trigger] entries[i]).0@
                    != name by {
                    if i > 0 {
                        assert(entries[i] == rest[i - 1]);
                    }
                }
            } else {
                let j = choose|j: int| 0 <= j < rest.len() && (#[trigger] rest[j]).0@ == name;
                assert(entries[j + 1] == rest[j]);
            }
        }
    }
}

pub(crate) proof fn lemma_lookup_first<V>(entries: Seq<(String, V)>, name: Seq<char>, at: int)
    requires
        0 <= at < entries.len(),
        entries[at].0@ == name,
        forall|i: int| 0 <= i < at ==> (#[trigger] entries[i]).0@ != name,
    ensures
        lookup(entries, name) == Some(entries[at].1),
    decreases entries.len(),
{
    if at > 0 {
        let rest = entries.drop_first();
        assert(entries[0].0@ != name);
        assert forall|i: int| 0 <= i < at - 1 implies (#[trigger] rest[i]).0@ != name by {
            assert(rest[i] == entries[i + 1]);
        }
        lemma_lookup_first(rest, name, at - 1);
    }
}

pub(crate) proof fn lemma_lookup_push<V>(entries: Seq<(String, V)>, entry: (String, V), name: Seq<char>)
    ensures
        lookup(entries.push(entry), name) == if lookup(entries, name) is Some {
            lookup(entries, name)
        } else if entry.0@ == name {
            Some(entry.1)
        } else {
            None
        },
    decreases entries.len(),
{
    let longer = entries.push(entry);
    if entries.len() == 0 {
        assert(longer.drop_first().len() == 0);
    } else {
        assert(longer.drop_first() == entries.drop_first().push(entry));
        lemma_lookup_push(entries.drop_first(), entry, name);
    }
}

pub(crate) proof fn lemma_lookup_update<V>(entries: Seq<(String, V)>, at: int, entry: (String, V), name: Seq<char>)
    requires
        0 <= at < entries.len(),
        entries[at].0@ == entry.0@,
    ensures
        lookup(entries.update(at, entry), name) == if name == entry.0@ && lookup(
            entries.take(at),
            name,
        ) is None {
            Some(entry.1)
        } else {
            lookup(entries, name)
        },
    decreases entries.len(),
{
    let changed = entries.update(at, entry);
    if at == 0 {
        assert(changed.drop_first() == entries.drop_first());
        assert(entries.take(0).len() == 0);
    } else {
        assert(changed.drop_first() == entries.drop_first().update(at - 1, entry));
        assert(entries.take(at).drop_first() == entries.drop_first().take(at - 1));
        lemma_lookup_update(entries.drop_first(), at - 1, entry, name);
    }
}

/// The place of the first entry with the given name.
pub(crate) fn find<V>(entries: &Vec<(String, V)>, name: &String) -> (at: Option<usize>)
    ensures
        match at {
            Some(i) => {
                &&& i < entries.len()
                &&& entries[i as int].0@ == name@
                &&& lookup(entries@, name@) == Some(entries[i as int].1)
                &&& lookup(entries@.take(i as int), name@) is None
            },
            None => lookup(entries@, name@) is None,
        },
{
    let n = entries.len();
    let mut i: usize = 0;
    while i < n
        invariant
            0 <= i <= n,
            n == entries.len(),
            forall|j: int| 0 <= j < i ==> (#[trigger] entries@[j]).0@ != name@,
        decreases n - i,
    {
        if entries[i].0 == *name {
            proof {
                lemma_lookup_first(entries@, name@, i as int);
                lemma_lookup_absent(entries@.take(i as int), name@);
            }
            return Some(i);
        }
        i = i + 1;
    }
    proof {
        lemma_lookup_absent(entries@, name@);
    }
    None
}

/// Puts a value under a name: in the place of the first entry with that
/// name, or behind the entries.
pub(crate) fn put<V>(entries: &mut Vec<(String, V)>, name: String, value: V)
    ensures
        forall|other: Seq<char>|
            #[trigger] lookup(final(entries)@, other) == if other == name@ {
                Some(value)
            } else {
                lookup(old(entries)@, other)
            },
{
    let ghost key = name@;
    let ghost before = entries@;
    let entry = (name, value);
    match find(entries, &entry.0) {
        Some(i) => {
            proof {
                assert forall|other: Seq<char>| lookup(before.update(i as int, entry), other) == (
                if other == key {
                    Some(value)
                } else {
                    lookup(before, other)
                }) by {
                    lemma_lookup_update(before, i as int, entry, other);
                }
            }
            entries.set(i, entry);
        },
        None => {
            proof {
                assert forall|other: Seq<char>| lookup(before.push(entry), other) == (if other
                    == key {
                    Some(value)
                } else {
                    lookup(before, other)
                }) by {
                    lemma_lookup_push(before, entry, other);
                }
            }
            entries.push(entry);
        },
    }
}

} // verus!
