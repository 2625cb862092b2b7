//! Free-form user attributes: typed values by name, and typed reads of them.
use vstd::prelude::*;

verus! {

/// The value of an attribute.
#[derive(Debug, Clone, PartialEq, Eq)]
pub enum AttributeValue {
    Int(i64),
    Str(String),
    Bool(bool),
    ListStr(Vec<String>),
}

/// The map of the entries, later entries winning.
pub open spec fn entries_map(entries: Seq<(String, AttributeValue)>) -> Map<Seq<char>, AttributeValue>
    decreases entries.len(),
{
    if entries.len() == 0 {
        Map::empty()
    } else {
        entries_map(entries.drop_last()).insert(entries.last().0@, entries.last().1)
    }
}

/// No two entries have the same name.
pub open spec fn distinct_names(entries: Seq<(String, AttributeValue)>) -> bool {
    forall|i: int, j: int|
        0 <= i < entries.len() && 0 <= j < entries.len() && i != j ==> entries[i].0@
            != entries[j].0@
}

/// Attributes by name, each name at most once.
pub struct AttributesMap {
    entries: Vec<(String, AttributeValue)>,
}

impl View for AttributesMap {
    type V = Map<Seq<char>, AttributeValue>;

    closed spec fn view(&self) -> Map<Seq<char>, AttributeValue> {
        entries_map(self.entries@)
    }
}

/// With distinct names, the map holds exactly the entries.
proof fn lemma_entries_map(entries: Seq<(String, AttributeValue)>)
    requires
        distinct_names(entries),
    ensures
        entries_map(entries).dom().finite(),
        entries_map(entries).len() == entries.len(),
        forall|i: int|
            0 <= i < entries.len() ==> #[trigger] entries_map(entries).contains_key(entries[i].0@)
                && entries_map(entries)[entries[i].0@] == entries[i].1,
        forall|k: Seq<char>|
            #[trigger] entries_map(entries).contains_key(k) ==> exists|i: int|
                0 <= i < entries.len() && entries[i].0@ == k,
    decreases entries.len(),
{
    if entries.len() > 0 {
        let init = entries.drop_last();
        assert(distinct_names(init));
        lemma_entries_map(init);
        let last = entries.last();
        assert(!entries_map(init).contains_key(last.0@)) by {
            if entries_map(init).contains_key(last.0@) {
                let i = choose|i: int| 0 <= i < init.len() && init[i].0@ == last.0@;
                assert(entries[i].0@ == entries[entries.len() - 1].0@);
            }
        }
        assert forall|k: Seq<char>| #[trigger]
            entries_map(entries).contains_key(k) implies exists|i: int|
            0 <= i < entries.len() && entries[i].0@ == k by {
            if k != last.0@ {
                assert(entries_map(init).contains_key(k));
                let i = choose|i: int| 0 <= i < init.len() && init[i].0@ == k;
                assert(entries[i].0@ == k);
            } else {
                assert(entries[entries.len() - 1].0@ == k);
            }
        }
        assert forall|i: int| 0 <= i < entries.len() implies #[trigger] entries_map(
            entries,
        ).contains_key(entries[i].0@) && entries_map(entries)[entries[i].0@] == entries[i].1 by {
            if i < entries.len() - 1 {
                assert(init[i] == entries[i]);
            }
        }
    }
}

impl AttributesMap {
    #[verifier::type_invariant]
    spec fn names_distinct(self) -> bool {
        distinct_names(self.entries@)
    }

    pub fn new() -> (m: Self)
        ensures
            m@ == Map::<Seq<char>, AttributeValue>::empty(),
    {
        AttributesMap { entries: Vec::new() }
    }

    pub fn len(&self) -> (n: usize)
        ensures
            self@.dom().finite(),
            n == self@.len(),
    {
        proof {
            use_type_invariant(self);
            lemma_entries_map(self.entries@);
        }
        self.entries.len()
    }

    pub fn is_empty(&self) -> (b: bool)
        ensures
            b == (self@ == Map::<Seq<char>, AttributeValue>::empty()),
    {
        proof {
            use_type_invariant(self);
            lemma_entries_map(self.entries@);
            if self.entries@.len() > 0 {
                assert(self@.contains_key(self.entries@[0].0@));
            } else {
                assert(self@ =~= Map::<Seq<char>, AttributeValue>::empty());
            }
        }
        self.entries.len() == 0
    }

    /// The position of the entry named `name`, if any.
    fn position(&self, name: &String) -> (p: Option<usize>)
        ensures
            match p {
                Some(i) => i < self.entries@.len() && self.entries@[i as int].0@ == name@,
                None => forall|i: int|
                    0 <= i < self.entries@.len() ==> self.entries@[i].0@ != name@,
            },
    {
        let mut i: usize = 0;
        while i < self.entries.len()
            invariant
                i <= self.entries@.len(),
                forall|j: int| 0 <= j < i ==> self.entries@[j].0@ != name@,
            decreases self.entries@.len() - i,
        {
            if self.entries[i].0 == *name {
                return Some(i);
            }
            i = i + 1;
        }
        None
    }

    /// The value of the attribute `name`, if there is one.
    pub fn get(&self, name: &str) -> (v: Option<&AttributeValue>)
        ensures
            match v {
                Some(value) => self@.contains_key(name@) && self@[name@] == *value,
                None => !self@.contains_key(name@),
            },
    {
        proof {
            use_type_invariant(self);
            lemma_entries_map(self.entries@);
        }
        let owned = name.to_owned();
        match self.position(&owned) {
            Some(i) => {
                proof {
                    assert(entries_map(self.entries@).contains_key(self.entries@[i as int].0@));
                }
                Some(&self.entries[i].1)
            },
            None => {
                proof {
                    if self@.contains_key(name@) {
                        let i = choose|i: int|
                            0 <= i < self.entries@.len() && self.entries@[i].0@ == name@;
                        assert(self.entries@[i].0@ != owned@);
                    }
                }
                None
            },
        }
    }

    /// Sets the attribute `name` to `value`, and gives back the value that it
    /// had, if any.
    pub fn insert(&mut self, name: String, value: AttributeValue) -> (previous: Option<AttributeValue>)
        ensures
            final(self)@ == old(self)@.insert(name@, value),
            match previous {
                Some(p) => old(self)@.contains_key(name@) && old(self)@[name@] == p,
                None => !old(self)@.contains_key(name@),
            },
    {
        proof {
            use_type_invariant(&*self);
            lemma_entries_map(self.entries@);
        }
        let ghost before = self.entries@;
        match self.position(&name) {
            Some(i) => {
                let mut entries: Vec<(String, AttributeValue)> = Vec::new();
                std::mem::swap(&mut entries, &mut self.entries);
                let old_entry = entries.remove(i);
                entries.insert(i, (name, value));
                proof {
                    assert(entries@ =~= before.update(i as int, entries@[i as int]));
                    assert(distinct_names(entries@));
                    lemma_entries_map(entries@);
                    assert(entries_map(entries@) =~= entries_map(before).insert(name@, value)) by {
                        assert forall|k: Seq<char>|
                            entries_map(entries@).contains_key(k) implies entries_map(
                                before,
                            ).insert(name@, value).contains_key(k) by {
                            let j = choose|j: int| 0 <= j < entries@.len() && entries@[j].0@ == k;
                            if j != i {
                                assert(before[j] == entries@[j]);
                            }
                        }
                        assert forall|k: Seq<char>|
                            entries_map(before).insert(name@, value).contains_key(
                                k,
                            ) implies entries_map(entries@).contains_key(k) by {
                            if k != name@ {
                                let j = choose|j: int| 0 <= j < before.len() && before[j].0@ == k;
                                assert(j != i);
                                assert(before[j] == entries@[j]);
                            }
                        }
                        assert forall|k: Seq<char>|
                            entries_map(entries@).contains_key(k) implies entries_map(entries@)[k]
                            == entries_map(before).insert(name@, value)[k] by {
                            let j = choose|j: int| 0 <= j < entries@.len() && entries@[j].0@ == k;
                            if j != i {
                                assert(before[j] == entries@[j]);
                            }
                        }
                    }
                }
                self.entries = entries;
                Some(old_entry.1)
            },
            None => {
                let ghost key = name@;
                let mut entries: Vec<(String, AttributeValue)> = Vec::new();
                std::mem::swap(&mut entries, &mut self.entries);
                entries.push((name, value));
                proof {
                    assert(entries@.drop_last() =~= before);
                    assert(distinct_names(entries@)) by {
                        assert forall|a: int, b: int|
                            0 <= a < entries@.len() && 0 <= b < entries@.len() && a
                                != b implies entries@[a].0@ != entries@[b].0@ by {
                            if a < before.len() && b < before.len() {
                                assert(entries@[a] == before[a]);
                                assert(entries@[b] == before[b]);
                            } else if a < before.len() {
                                assert(entries@[a] == before[a]);
                            } else {
                                assert(entries@[b] == before[b]);
                            }
                        }
                    }
                    if entries_map(before).contains_key(key) {
                        let j = choose|j: int| 0 <= j < before.len() && before[j].0@ == key;
                        assert(false);
                    }
                }
                self.entries = entries;
                None
            },
        }
    }

    /// The entries, each name once, in the order in which they were first set.
    pub fn entries(&self) -> (e: &Vec<(String, AttributeValue)>)
        ensures
            entries_map(e@) == self@,
            distinct_names(e@),
    {
        proof {
            use_type_invariant(self);
        }
        &self.entries
    }
}

/// Typed reads of one attribute value.
pub struct AttributeHelper;

impl AttributeHelper {
    pub fn string_value(value: &AttributeValue) -> (r: Result<String, String>)
        ensures
            match value {
                AttributeValue::Str(s) => r matches Ok(t) && t@ == s@,
                _ => r matches Err(e) && e@ == "invalid string"@,
            },
    {
        if let AttributeValue::Str(val) = value {
            Ok(val.clone())
        } else {
            Err("invalid string".to_owned())
        }
    }

    pub fn int_value(value: &AttributeValue) -> (r: Result<i64, String>)
        ensures
            match value {
                AttributeValue::Int(i) => r == Ok::<i64, String>(*i),
                _ => r matches Err(e) && e@ == "invalid integer"@,
            },
    {
        if let AttributeValue::Int(val) = value {
            Ok(*val)
        } else {
            Err("invalid integer".to_owned())
        }
    }

    pub fn bool_value(value: &AttributeValue) -> (r: Result<bool, String>)
        ensures
            match value {
                AttributeValue::Bool(b) => r == Ok::<bool, String>(*b),
                _ => r matches Err(e) && e@ == "invalid boolean"@,
            },
    {
        if let AttributeValue::Bool(val) = value {
            Ok(*val)
        } else {
            Err("invalid boolean".to_owned())
        }
    }

    /// Every attribute value is valid.
    pub fn is_valid_attribute(value: &AttributeValue) -> (b: bool)
        ensures
            b,
    {
        match value {
            AttributeValue::Bool(_) => true,
            AttributeValue::Int(_) => true,
            AttributeValue::Str(_) => true,
            AttributeValue::ListStr(_) => true,
        }
    }
}

/// The boolean held by the attribute `name`, if it holds one.
pub open spec fn bool_attribute(attributes: Map<Seq<char>, AttributeValue>, name: Seq<char>) -> Option<bool> {
    if attributes.contains_key(name) && attributes[name] is Bool {
        Some(attributes[name]->Bool_0)
    } else {
        None
    }
}

/// Typed reads of attributes by name.
pub struct AttributeMapHelper;

impl AttributeMapHelper {
    pub fn bool_value(attributes: &AttributesMap, attribute_name: &str) -> (r: Option<bool>)
        ensures
            r == bool_attribute(attributes@, attribute_name@),
    {
        if attributes.is_empty() {
            return None;
        }
        match attributes.get(attribute_name) {
            Some(attr) => match AttributeHelper::bool_value(attr) {
                Ok(value) => Some(value),
                Err(_) => None,
            },
            None => None,
        }
    }
}

} // verus!
