//! Enum values of the host: names that a script may use in place of numbers.
use crate::table::{find, lookup, put};
use vstd::prelude::*;
use vstd::string::StringExecFns;

verus! {

/// The enum values that the host has registered: names, each with its
/// number.
#[derive(Debug)]
pub struct EnumTable {
    entries: Vec<(String, i8)>,
}

impl View for EnumTable {
    type V = Map<Seq<char>, i8>;

    closed spec fn view(&self) -> Map<Seq<char>, i8> {
        Map::new(
            |name: Seq<char>| lookup(self.entries@, name) is Some,
            |name: Seq<char>| lookup(self.entries@, name)->0,
        )
    }
}

impl Clone for EnumTable {
    fn clone(&self) -> (table: EnumTable)
        ensures
            table@ == self@,
    {
        let mut entries: Vec<(String, i8)> = Vec::new();
        let n = self.entries.len();
        let mut i: usize = 0;
        while i < n
            invariant
                0 <= i <= n,
                n == self.entries.len(),
                entries@ == self.entries@.take(i as int),
            decreases n - i,
        {
            entries.push((self.entries[i].0.clone(), self.entries[i].1));
            assert(self.entries@.take(i + 1) == self.entries@.take(i as int).push(
                self.entries@[i as int],
            ));
            i = i + 1;
        }
        assert(self.entries@.take(n as int) == self.entries@);
        EnumTable { entries }
    }
}

impl Default for EnumTable {
    fn default() -> (table: EnumTable)
        ensures
            table@ == Map::<Seq<char>, i8>::empty(),
    {
        EnumTable::new()
    }
}

impl EnumTable {
    /// A table without entries.
    pub fn new() -> (table: EnumTable)
        ensures
            table@ == Map::<Seq<char>, i8>::empty(),
    {
        let table = EnumTable { entries: Vec::new() };
        assert(table@ =~= Map::<Seq<char>, i8>::empty());
        table
    }

    /// The number registered under `name`, if there is one.
    pub fn get(&self, name: &str) -> (value: Option<i8>)
        ensures
            value == if self@.contains_key(name@) {
                Some(self@[name@])
            } else {
                None
            },
    {
        let key = String::from_str(name);
        match find(&self.entries, &key) {
            Some(i) => Some(self.entries[i].1),
            None => None,
        }
    }

    /// Whether a number is registered under `name`.
    pub fn contains_key(&self, name: &str) -> (known: bool)
        ensures
            known == self@.contains_key(name@),
    {
        self.get(name).is_some()
    }

    /// Registers `value` under `name` and hands back the number that was
    /// registered under it before.
    pub fn insert(&mut self, name: String, value: i8) -> (before: Option<i8>)
        ensures
            final(self)@ == old(self)@.insert(name@, value),
            before == if old(self)@.contains_key(name@) {
                Some(old(self)@[name@])
            } else {
                None
            },
    {
        let before = match find(&self.entries, &name) {
            Some(i) => Some(self.entries[i].1),
            None => None,
        };
        let ghost key = name@;
        put(&mut self.entries, name, value);
        assert(self@ =~= old(self)@.insert(key, value));
        before
    }
}

/// An enum of the host whose values scripts may name.
pub trait ScriptEnum {
    /// The names of the values of the enum, each with its number.
    fn key_value_tuples<'a>() -> Vec<(&'a str, i8)>;
}

/// The numbers of the variants of an enum, of which some are given a
/// number and others not: a variant without a number of its own takes the
/// number of the variant before it and one more, and the first variant
/// takes zero.
pub open spec fn numbering(explicit: Seq<Option<i8>>) -> Seq<int>
    decreases explicit.len(),
{
    if explicit.len() == 0 {
        Seq::empty()
    } else {
        let before = numbering(explicit.drop_last());
        before.push(
            match explicit.last() {
                Some(number) => number as int,
                None => if before.len() == 0 {
                    0
                } else {
                    before.last() + 1
                },
            },
        )
    }
}

/// Each variant has its own number, or one more than the variant before
/// it, or zero where it is the first.
pub proof fn lemma_numbering(explicit: Seq<Option<i8>>, i: int)
    requires
        0 <= i < explicit.len(),
    ensures
        numbering(explicit).len() == explicit.len(),
        numbering(explicit)[i] == match explicit[i] {
            Some(number) => number as int,
            None => if i == 0 {
                0
            } else {
                numbering(explicit)[i - 1] + 1
            },
        },
    decreases explicit.len(),
{
    lemma_numbering_len(explicit);
    lemma_numbering_len(explicit.drop_last());
    if i < explicit.len() - 1 {
        lemma_numbering(explicit.drop_last(), i);
    } else if i > 0 {
        lemma_numbering(explicit.drop_last(), i - 1);
    }
}

proof fn lemma_numbering_len(explicit: Seq<Option<i8>>)
    ensures
        numbering(explicit).len() == explicit.len(),
    decreases explicit.len(),
{
    if explicit.len() > 0 {
        lemma_numbering_len(explicit.drop_last());
    }
}

/// The numbers of the variants of an enum, unless one of them is beyond
/// what a signed 8-bit integer holds.
pub fn discriminants(explicit: &Vec<Option<i8>>) -> (numbers: Option<Vec<i8>>)
    ensures
        numbering(explicit@).len() == explicit@.len(),
        numbers is Some <==> forall|i: int|
            0 <= i < explicit@.len() ==> #[trigger] numbering(explicit@)[i] <= i8::MAX,
        numbers matches Some(v) ==> {
            &&& v@.len() == explicit@.len()
            &&& forall|i: int| 0 <= i < v@.len() ==> #[trigger] v@[i] == numbering(explicit@)[i]
        },
{
    let n = explicit.len();
    let mut numbers: Vec<i8> = Vec::new();
    let mut i: usize = 0;
    proof {
        lemma_numbering_len(explicit@);
    }
    while i < n
        invariant
            0 <= i <= n,
            n == explicit.len(),
            numbers@.len() == i,
            numbering(explicit@).len() == n,
            forall|j: int| 0 <= j < i ==> #[trigger] numbers@[j] == numbering(explicit@)[j],
        decreases n - i,
    {
        proof {
            lemma_numbering(explicit@, i as int);
        }
        let number = match explicit[i] {
            Some(number) => number,
            None => if i == 0 {
                0
            } else {
                let before = numbers[i - 1];
                if before == 127 {
                    assert(numbering(explicit@)[i as int] == 128);
                    return None;
                }
                before + 1
            },
        };
        numbers.push(number);
        i = i + 1;
    }
    assert forall|j: int| 0 <= j < explicit@.len() implies #[trigger] numbering(explicit@)[j]
        <= i8::MAX by {
        assert(numbers@[j] == numbering(explicit@)[j]);
    }
    Some(numbers)
}

} // verus!
