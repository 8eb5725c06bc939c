//! The attributes of a feature: a mapping from key to value.

use vstd::prelude::*;

verus! {

/// The value of one attribute.
///
/// The two floating-point kinds hold the bits of the IEEE 754 number, as
/// `f32::to_bits` and `f64::to_bits` give them.
#[derive(Clone, Debug, PartialEq, Eq)]
pub enum PropertyValue {
    BoolValue(bool),
    StringValue(String),
    FloatValue(u32),
    IntValue(i64),
    SIntValue(i64),
    UIntValue(u64),
    DoubleValue(u64),
    Unknown,
}

/// What an attribute value holds.
pub enum Value {
    Bool(bool),
    Text(Seq<char>),
    Float(u32),
    Int(i64),
    SInt(i64),
    UInt(u64),
    Double(u64),
    Unknown,
}

impl View for PropertyValue {
    type V = Value;

    open spec fn view(&self) -> Value {
        match *self {
            PropertyValue::BoolValue(b) => Value::Bool(b),
            PropertyValue::StringValue(s) => Value::Text(s@),
            PropertyValue::FloatValue(bits) => Value::Float(bits),
            PropertyValue::IntValue(i) => Value::Int(i),
            PropertyValue::SIntValue(i) => Value::SInt(i),
            PropertyValue::UIntValue(u) => Value::UInt(u),
            PropertyValue::DoubleValue(bits) => Value::Double(bits),
            PropertyValue::Unknown => Value::Unknown,
        }
    }
}

impl PropertyValue {
    /// Whether two values are of the same kind and hold the same.
    pub fn same_value(&self, other: &PropertyValue) -> (b: bool)
        ensures
            b == (self@ == other@),
    {
        match self {
            PropertyValue::BoolValue(x) => match other {
                PropertyValue::BoolValue(y) => *x == *y,
                _ => false,
            },
            PropertyValue::StringValue(x) => match other {
                PropertyValue::StringValue(y) => *x == *y,
                _ => false,
            },
            PropertyValue::FloatValue(x) => match other {
                PropertyValue::FloatValue(y) => *x == *y,
                _ => false,
            },
            PropertyValue::IntValue(x) => match other {
                PropertyValue::IntValue(y) => *x == *y,
                _ => false,
            },
            PropertyValue::SIntValue(x) => match other {
                PropertyValue::SIntValue(y) => *x == *y,
                _ => false,
            },
            PropertyValue::UIntValue(x) => match other {
                PropertyValue::UIntValue(y) => *x == *y,
                _ => false,
            },
            PropertyValue::DoubleValue(x) => match other {
                PropertyValue::DoubleValue(y) => *x == *y,
                _ => false,
            },
            PropertyValue::Unknown => match other {
                PropertyValue::Unknown => true,
                _ => false,
            },
        }
    }
}

/// One attribute: a key and its value.
#[derive(Clone, Debug, PartialEq, Eq)]
pub struct Property {
    pub key: String,
    pub value: PropertyValue,
}

/// The mapping that a list of attributes stands for, a later one replacing
/// an earlier one of the same key.
pub open spec fn entries_map(entries: Seq<Property>) -> Map<Seq<char>, Value>
    decreases entries.len(),
{
    if entries.len() == 0 {
        Map::empty()
    } else {
        entries_map(entries.drop_last()).insert(entries.last().key@, entries.last().value@)
    }
}

/// No key occurs twice in `entries`.
pub open spec fn distinct_keys(entries: Seq<Property>) -> bool {
    forall|i: int, j: int|
        0 <= i < j < entries.len() ==> (#[trigger] entries[i]).key@ != (#[trigger] entries[j]).key@
}

/// A key is mapped exactly if some entry holds it, and then to that entry's
/// value.
proof fn entries_map_lookup(entries: Seq<Property>)
    requires
        distinct_keys(entries),
    ensures
        forall|i: int|
            0 <= i < entries.len() ==> entries_map(entries).contains_key(
                (#[trigger] entries[i]).key@,
            ) && entries_map(entries)[entries[i].key@] == entries[i].value@,
        forall|k: Seq<char>| #[trigger]
            entries_map(entries).contains_key(k) ==> exists|i: int|
                0 <= i < entries.len() && (#[trigger] entries[i]).key@ == k,
        entries_map(entries).dom().finite(),
        entries_map(entries).dom().len() == entries.len(),
    decreases entries.len(),
{
    if entries.len() > 0 {
        let front = entries.drop_last();
        let last = entries.last();
        entries_map_lookup(front);
        assert forall|i: int| 0 <= i < entries.len() implies entries_map(entries).contains_key(
            (#[trigger] entries[i]).key@,
        ) && entries_map(entries)[entries[i].key@] == entries[i].value@ by {
            if i < entries.len() - 1 {
                assert(front[i] == entries[i]);
                assert(entries[i].key@ != entries[entries.len() - 1].key@);
            }
        }
        assert forall|k: Seq<char>| #[trigger]
            entries_map(entries).contains_key(k) implies exists|i: int|
            0 <= i < entries.len() && (#[trigger] entries[i]).key@ == k by {
            if k == last.key@ {
                assert(entries[entries.len() - 1].key@ == k);
            } else {
                assert(entries_map(front).contains_key(k));
                let i = choose|i: int| 0 <= i < front.len() && (#[trigger] front[i]).key@ == k;
                assert(entries[i].key@ == k);
            }
        }
        if entries_map(front).contains_key(last.key@) {
            let i = choose|i: int| 0 <= i < front.len() && (#[trigger] front[i]).key@ == last.key@;
            assert(entries[i].key@ == entries[entries.len() - 1].key@);
        }
        assert(entries_map(entries).dom() =~= entries_map(front).dom().insert(last.key@));
    }
}

/// Replacing the value of the entry at `at` is mapping its key anew.
proof fn entries_map_update(entries: Seq<Property>, at: int, entry: Property)
    requires
        distinct_keys(entries),
        0 <= at < entries.len(),
        entry.key@ == entries[at].key@,
    ensures
        distinct_keys(entries.update(at, entry)),
        entries_map(entries.update(at, entry)) == entries_map(entries).insert(
            entry.key@,
            entry.value@,
        ),
    decreases entries.len(),
{
    let changed = entries.update(at, entry);
    let front = entries.drop_last();
    let last = entries.last();
    assert(distinct_keys(changed)) by {
        assert forall|i: int, j: int| 0 <= i < j < changed.len() implies (#[trigger] changed[i]).key@
            != (#[trigger] changed[j]).key@ by {
            assert(changed[i].key@ == entries[i].key@);
            assert(changed[j].key@ == entries[j].key@);
        }
    }
    if at == entries.len() - 1 {
        assert(changed.drop_last() =~= front);
        assert(entries_map(changed) =~= entries_map(entries).insert(entry.key@, entry.value@));
    } else {
        assert(distinct_keys(front)) by {
            assert forall|i: int, j: int| 0 <= i < j < front.len() implies (#[trigger] front[i]).key@
                != (#[trigger] front[j]).key@ by {
                assert(front[i] == entries[i]);
                assert(front[j] == entries[j]);
            }
        }
        entries_map_update(front, at, entry);
        assert(changed.drop_last() =~= front.update(at, entry));
        assert(changed.last() == last);
        assert(entries[at].key@ != entries[entries.len() - 1].key@);
        assert(entries_map(changed) =~= entries_map(entries).insert(entry.key@, entry.value@));
    }
}

/// A mapping from key to value in which no key occurs twice.
#[derive(Debug, PartialEq, Eq)]
pub struct Properties {
    entries: Vec<Property>,
}

impl View for Properties {
    type V = Map<Seq<char>, Value>;

    closed spec fn view(&self) -> Map<Seq<char>, Value> {
        entries_map(self.entries@)
    }
}

impl Properties {
    #[verifier::type_invariant]
    spec fn keys_are_distinct(self) -> bool {
        distinct_keys(self.entries@)
    }

    /// The mapped keys, in the order in which they were first mapped.
    pub closed spec fn keys(&self) -> Seq<Seq<char>> {
        Seq::new(self.entries.len() as nat, |i: int| self.entries[i].key@)
    }

    /// The empty mapping.
    pub fn new() -> (p: Properties)
        ensures
            p@ == Map::<Seq<char>, Value>::empty(),
            p.keys() == Seq::<Seq<char>>::empty(),
    {
        let p = Properties { entries: Vec::new() };
        assert(p.keys() =~= Seq::<Seq<char>>::empty());
        p
    }

    /// The position of the entry that holds `key`, if there is one.
    fn position(&self, key: &String) -> (r: Option<usize>)
        ensures
            match r {
                Some(at) => at < self.entries.len() && self.entries[at as int].key@ == key@,
                None => forall|i: int|
                    0 <= i < self.entries.len() ==> (#[trigger] self.entries[i]).key@ != key@,
            },
    {
        let mut i: usize = 0;
        while i < self.entries.len()
            invariant
                i <= self.entries.len(),
                forall|j: int| 0 <= j < i ==> (#[trigger] self.entries[j]).key@ != key@,
            decreases self.entries.len() - i,
        {
            if self.entries[i].key == *key {
                return Some(i);
            }
            i += 1;
        }
        None
    }

    /// This mapping with `key` mapped to `value`, in place of what it was
    /// mapped to before.
    pub fn insert(self, key: String, value: PropertyValue) -> (r: Properties)
        ensures
            r@ == self@.insert(key@, value@),
            r.keys() == if self@.contains_key(key@) {
                self.keys()
            } else {
                self.keys().push(key@)
            },
    {
        proof {
            use_type_invariant(&self);
            entries_map_lookup(self.entries@);
        }
        let found = self.position(&key);
        let entry = Property { key, value };
        let mut entries = self.entries;
        let ghost before = entries@;
        match found {
            Some(at) => {
                proof {
                    entries_map_update(before, at as int, entry);
                }
                entries.set(at, entry);
            },
            None => {
                entries.push(entry);
                assert(entries@.drop_last() =~= before);
                assert(distinct_keys(entries@)) by {
                    assert forall|i: int, j: int| 0 <= i < j < entries.len() implies (
                    #[trigger] entries[i]).key@ != (#[trigger] entries[j]).key@ by {
                        assert(entries[i] == before[i]);
                        if j < before.len() {
                            assert(entries[j] == before[j]);
                        }
                    }
                }
            },
        }
        let r = Properties { entries };
        assert(r.keys() =~= if self@.contains_key(key@) {
            self.keys()
        } else {
            self.keys().push(key@)
        });
        r
    }

    /// The value that `key` is mapped to, if it is mapped.
    pub fn get(&self, key: &String) -> (r: Option<&PropertyValue>)
        ensures
            match r {
                Some(v) => self@.contains_key(key@) && self@[key@] == v@,
                None => !self@.contains_key(key@),
            },
    {
        proof {
            use_type_invariant(&*self);
            entries_map_lookup(self.entries@);
        }
        match self.position(key) {
            Some(at) => Some(&self.entries[at].value),
            None => None,
        }
    }

    /// The number of keys that are mapped. No key is listed twice, and the
    /// listed keys are the mapped ones.
    pub fn len(&self) -> (n: usize)
        ensures
            self@.dom().finite(),
            n == self@.dom().len(),
            n == self.keys().len(),
            self.keys().no_duplicates(),
            forall|k: Seq<char>| self.keys().contains(k) <==> self@.contains_key(k),
    {
        proof {
            use_type_invariant(&*self);
            entries_map_lookup(self.entries@);
            assert forall|k: Seq<char>| self.keys().contains(k) <==> self@.contains_key(k) by {
                if self.keys().contains(k) {
                    let i = choose|i: int| 0 <= i < self.keys().len() && self.keys()[i] == k;
                    assert(self.entries[i].key@ == k);
                }
                if self@.contains_key(k) {
                    let i = choose|i: int|
                        0 <= i < self.entries.len() && (#[trigger] self.entries[i]).key@ == k;
                    assert(self.keys()[i] == k);
                }
            }
            assert forall|i: int, j: int|
                0 <= i < self.keys().len() && 0 <= j < self.keys().len() && i != j implies self.keys()[i]
                != self.keys()[j] by {
                assert(self.entries[i].key@ == self.keys()[i]);
                assert(self.entries[j].key@ == self.keys()[j]);
            }
        }
        self.entries.len()
    }

    /// The attribute whose key stands at place `at` among the keys, if
    /// there are that many.
    pub fn entry(&self, at: usize) -> (r: Option<&Property>)
        ensures
            match r {
                Some(p) => at < self.keys().len() && p.key@ == self.keys()[at as int]
                    && self@.contains_key(p.key@) && self@[p.key@] == p.value@,
                None => at >= self.keys().len(),
            },
    {
        proof {
            use_type_invariant(&*self);
            entries_map_lookup(self.entries@);
        }
        if at < self.entries.len() {
            Some(&self.entries[at])
        } else {
            None
        }
    }

    /// Whether no key is mapped.
    pub fn is_empty(&self) -> (b: bool)
        ensures
            b == (self@ == Map::<Seq<char>, Value>::empty()),
    {
        proof {
            use_type_invariant(&*self);
            entries_map_lookup(self.entries@);
            if self.entries.len() > 0 {
                assert(self@.contains_key(self.entries[0].key@));
            }
        }
        self.entries.len() == 0
    }

    /// Whether two mappings map the same keys to the same values, in
    /// whatever order the keys were mapped.
    pub fn same_mapping(&self, other: &Properties) -> (b: bool)
        ensures
            b == (self@ == other@),
    {
        proof {
            use_type_invariant(&*self);
            use_type_invariant(&*other);
            entries_map_lookup(self.entries@);
            entries_map_lookup(other.entries@);
        }
        if self.entries.len() != other.entries.len() {
            return false;
        }
        let mut i: usize = 0;
        while i < self.entries.len()
            invariant
                i <= self.entries.len(),
                distinct_keys(self.entries@),
                forall|j: int|
                    0 <= j < i ==> other@.contains_key((#[trigger] self.entries[j]).key@)
                        && other@[self.entries[j].key@] == self.entries[j].value@,
            decreases self.entries.len() - i,
        {
            proof {
                entries_map_lookup(self.entries@);
            }
            match other.get(&self.entries[i].key) {
                Some(value) => {
                    if !self.entries[i].value.same_value(value) {
                        assert(self@[self.entries[i as int].key@] != other@[self.entries[i as int].key@]);
                        return false;
                    }
                },
                None => {
                    assert(self@.contains_key(self.entries[i as int].key@));
                    return false;
                },
            }
            i += 1;
        }
        proof {
            assert forall|k: Seq<char>| self@.dom().contains(k) implies other@.dom().contains(k) by {
                assert(self@.contains_key(k));
                let j = choose|j: int|
                    0 <= j < self.entries.len() && (#[trigger] self.entries[j]).key@ == k;
                assert(other@.contains_key(self.entries[j].key@));
            }
            vstd::set_lib::lemma_subset_equality(self@.dom(), other@.dom());
            assert forall|k: Seq<char>| self@.contains_key(k) implies self@[k] == other@[k] by {
                let j = choose|j: int|
                    0 <= j < self.entries.len() && (#[trigger] self.entries[j]).key@ == k;
                assert(other@[self.entries[j].key@] == self.entries[j].value@);
            }
            assert(self@ =~= other@);
        }
        true
    }
}

} // verus!
