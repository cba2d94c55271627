//! The attribute context of a request: every attribute of every descriptor,
//! merged into one mapping from key to value.
//!
//! Descriptors are not evaluated one by one. Their attributes are poured into
//! a single context in the order in which they stand, and where a key occurs
//! more than once, within one descriptor or across several, the value that
//! comes last stays.

use crate::envoy::{attributes_of, descriptors_of, Attribute, Entry, RateLimitDescriptor};
use vstd::prelude::*;

verus! {

/// The mapping that `attributes` merge into: each key that occurs, with the
/// value of the last attribute that carries it.
pub open spec fn merged(attributes: Seq<Attribute>) -> Map<Seq<char>, Seq<char>>
    decreases attributes.len(),
{
    if attributes.len() == 0 {
        Map::empty()
    } else {
        merged(attributes.drop_last()).insert(attributes.last().0, attributes.last().1)
    }
}

/// The attributes of all of `descriptors`, one descriptor after the other.
pub open spec fn flattened(descriptors: Seq<Seq<Attribute>>) -> Seq<Attribute>
    decreases descriptors.len(),
{
    if descriptors.len() == 0 {
        Seq::empty()
    } else {
        flattened(descriptors.drop_last()) + descriptors.last()
    }
}

/// The attribute context of a request with the given descriptors.
pub open spec fn context_of(descriptors: Seq<Seq<Attribute>>) -> Map<Seq<char>, Seq<char>> {
    merged(flattened(descriptors))
}

/// No two attributes of `attributes` have the same key.
pub open spec fn keys_differ(attributes: Seq<Attribute>) -> bool {
    forall|i: int, j: int|
        0 <= i < j < attributes.len() ==> (#[trigger] attributes[i]).0 != (#[trigger] attributes[j]).0
}

/// Appending one attribute to a list sets its key to its value in the merged
/// mapping.
pub proof fn lemma_merged_push(attributes: Seq<Attribute>, attribute: Attribute)
    ensures
        merged(attributes.push(attribute)) == merged(attributes).insert(attribute.0, attribute.1),
{
    assert(attributes.push(attribute).drop_last() =~= attributes);
}

/// The merged mapping holds exactly the keys that occur in the list.
pub proof fn lemma_merged_keys(attributes: Seq<Attribute>, key: Seq<char>)
    ensures
        merged(attributes).dom().finite(),
        merged(attributes).contains_key(key) <==> exists|i: int|
            0 <= i < attributes.len() && (#[trigger] attributes[i]).0 == key,
    decreases attributes.len(),
{
    if attributes.len() > 0 {
        let front = attributes.drop_last();
        lemma_merged_keys(front, key);
        if exists|i: int| 0 <= i < attributes.len() && (#[trigger] attributes[i]).0 == key {
            let i = choose|i: int| 0 <= i < attributes.len() && (#[trigger] attributes[i]).0 == key;
            if i < attributes.len() - 1 {
                assert(front[i].0 == key);
            }
        }
    }
}

/// Last wins: where no later attribute of the list has the key of the
/// attribute at `i`, the merged mapping gives that key the value of the
/// attribute at `i`.
pub proof fn lemma_merged_last_wins(attributes: Seq<Attribute>, i: int)
    requires
        0 <= i < attributes.len(),
        forall|j: int| i < j < attributes.len() ==> (#[trigger] attributes[j]).0 != attributes[i].0,
    ensures
        merged(attributes).contains_key(attributes[i].0),
        merged(attributes)[attributes[i].0] == attributes[i].1,
    decreases attributes.len(),
{
    if i < attributes.len() - 1 {
        lemma_merged_last_wins(attributes.drop_last(), i);
    }
}

/// Merging two lists one after the other gives the mapping of the first,
/// overridden by the mapping of the second.
pub proof fn lemma_merged_concat(first: Seq<Attribute>, second: Seq<Attribute>)
    ensures
        merged(first + second) == merged(first).union_prefer_right(merged(second)),
    decreases second.len(),
{
    if second.len() > 0 {
        lemma_merged_concat(first, second.drop_last());
        assert((first + second).drop_last() =~= first + second.drop_last());
    }
}

/// Each descriptor overrides those before it: the context of a list of
/// descriptors with one more at its end is the context of the list,
/// overridden by the attributes of the added descriptor.
pub proof fn lemma_context_push(descriptors: Seq<Seq<Attribute>>, descriptor: Seq<Attribute>)
    ensures
        context_of(descriptors.push(descriptor)) == context_of(descriptors).union_prefer_right(
            merged(descriptor),
        ),
{
    assert(descriptors.push(descriptor).drop_last() =~= descriptors);
    lemma_merged_concat(flattened(descriptors), descriptor);
}

/// The context of a request holds exactly the keys of the attributes of its
/// descriptors: the key of every attribute of every descriptor, and no other.
pub proof fn lemma_context_keys(descriptors: Seq<Seq<Attribute>>, key: Seq<char>)
    ensures
        context_of(descriptors).dom().finite(),
        context_of(descriptors).contains_key(key) <==> exists|d: int, i: int|
            0 <= d < descriptors.len() && 0 <= i < descriptors[d].len() && (
            #[trigger] descriptors[d][i]).0 == key,
    decreases descriptors.len(),
{
    lemma_merged_keys(flattened(descriptors), key);
    if descriptors.len() > 0 {
        let front = descriptors.drop_last();
        let last = descriptors.last();
        assert(front.push(last) =~= descriptors);
        lemma_context_push(front, last);
        lemma_context_keys(front, key);
        lemma_merged_keys(last, key);
    }
}

/// Across descriptors too, last wins: where no later attribute of descriptor
/// `d` and no attribute of a later descriptor has the key of attribute `i` of
/// descriptor `d`, the context gives that key the value of that attribute.
pub proof fn lemma_context_last_wins(descriptors: Seq<Seq<Attribute>>, d: int, i: int)
    requires
        0 <= d < descriptors.len(),
        0 <= i < descriptors[d].len(),
        forall|j: int|
            i < j < descriptors[d].len() ==> (#[trigger] descriptors[d][j]).0
                != descriptors[d][i].0,
        forall|e: int, j: int|
            d < e < descriptors.len() && 0 <= j < descriptors[e].len() ==> (
            #[trigger] descriptors[e][j]).0 != descriptors[d][i].0,
    ensures
        context_of(descriptors).contains_key(descriptors[d][i].0),
        context_of(descriptors)[descriptors[d][i].0] == descriptors[d][i].1,
    decreases descriptors.len(),
{
    let front = descriptors.drop_last();
    let last = descriptors.last();
    let key = descriptors[d][i].0;
    assert(front.push(last) =~= descriptors);
    lemma_context_push(front, last);
    if d == descriptors.len() - 1 {
        lemma_merged_last_wins(last, i);
    } else {
        lemma_merged_keys(last, key);
        lemma_context_last_wins(front, d, i);
    }
}

/// Where no key repeats, the merged mapping has one key for each attribute.
pub proof fn lemma_merged_len(attributes: Seq<Attribute>)
    requires
        keys_differ(attributes),
    ensures
        merged(attributes).dom().finite(),
        merged(attributes).len() == attributes.len(),
    decreases attributes.len(),
{
    if attributes.len() > 0 {
        let front = attributes.drop_last();
        lemma_merged_len(front);
        lemma_merged_keys(front, attributes.last().0);
    }
}

/// Where no key repeats, giving one attribute another value sets its key to
/// that value in the merged mapping and changes nothing else.
proof fn lemma_merged_update(attributes: Seq<Attribute>, i: int, value: Seq<char>)
    requires
        keys_differ(attributes),
        0 <= i < attributes.len(),
    ensures
        keys_differ(attributes.update(i, (attributes[i].0, value))),
        merged(attributes.update(i, (attributes[i].0, value))) == merged(attributes).insert(
            attributes[i].0,
            value,
        ),
    decreases attributes.len(),
{
    let key = attributes[i].0;
    let updated = attributes.update(i, (key, value));
    let front = attributes.drop_last();
    if i == attributes.len() - 1 {
        assert(updated.drop_last() =~= front);
    } else {
        lemma_merged_update(front, i, value);
        assert(updated.drop_last() =~= front.update(i, (key, value)));
    }
}

/// Sets `key` to `value` in a list of entries in which each key stands once:
/// in place where the list holds the key, at the end where it does not.
fn put(entries: &mut Vec<Entry>, key: String, value: String)
    requires
        keys_differ(attributes_of(old(entries)@)),
    ensures
        keys_differ(attributes_of(final(entries)@)),
        merged(attributes_of(final(entries)@)) == merged(attributes_of(old(entries)@)).insert(
            key@,
            value@,
        ),
{
    let ghost before = attributes_of(entries@);
    let n: usize = entries.len();
    let mut i: usize = 0;
    while i < n
        invariant
            i <= n,
            n == entries.len(),
            before == attributes_of(entries@),
            before == attributes_of(old(entries)@),
            keys_differ(before),
            forall|j: int| 0 <= j < i ==> (#[trigger] before[j]).0 != key@,
        decreases n - i,
    {
        if entries[i].key == key {
            proof {
                lemma_merged_update(before, i as int, value@);
            }
            entries[i].value = value;
            assert(attributes_of(entries@) =~= before.update(i as int, (key@, value@)));
            return;
        }
        i += 1;
    }
    let entry = Entry { key, value };
    proof {
        lemma_merged_push(before, entry@);
        assert(attributes_of(entries@.push(entry)) =~= before.push(entry@));
    }
    entries.push(entry);
}

/// An attribute context: a mapping from attribute key to value in which each
/// key stands once.
#[derive(Debug)]
pub struct AttributeContext {
    entries: Vec<Entry>,
}

impl View for AttributeContext {
    type V = Map<Seq<char>, Seq<char>>;

    closed spec fn view(&self) -> Map<Seq<char>, Seq<char>> {
        merged(attributes_of(self.entries@))
    }
}

impl AttributeContext {
    #[verifier::type_invariant]
    spec fn each_key_once(&self) -> bool {
        keys_differ(attributes_of(self.entries@))
    }

    /// Creates a context without attributes.
    pub fn new() -> (context: AttributeContext)
        ensures
            context@ == Map::<Seq<char>, Seq<char>>::empty(),
    {
        AttributeContext { entries: Vec::new() }
    }

    /// Returns the number of keys in the context.
    pub fn len(&self) -> (n: usize)
        ensures
            self@.dom().finite(),
            n == self@.len(),
    {
        proof {
            use_type_invariant(self);
            lemma_merged_len(attributes_of(self.entries@));
        }
        self.entries.len()
    }

    /// Sets `key` to `value`, whether or not the context held the key.
    pub fn insert(&mut self, key: String, value: String)
        ensures
            final(self)@ == old(self)@.insert(key@, value@),
    {
        proof {
            use_type_invariant(&*self);
        }
        let mut entries: Vec<Entry> = Vec::new();
        core::mem::swap(&mut self.entries, &mut entries);
        put(&mut entries, key, value);
        self.entries = entries;
    }

    /// Returns the value of `key`, if the context holds the key.
    pub fn get(&self, key: &String) -> (value: Option<&String>)
        ensures
            match value {
                Some(v) => self@.contains_key(key@) && v@ == self@[key@],
                None => !self@.contains_key(key@),
            },
    {
        proof {
            use_type_invariant(self);
        }
        let ghost attributes = attributes_of(self.entries@);
        let mut i: usize = 0;
        while i < self.entries.len()
            invariant
                i <= self.entries.len(),
                attributes == attributes_of(self.entries@),
                keys_differ(attributes),
                forall|j: int| 0 <= j < i ==> (#[trigger] attributes[j]).0 != key@,
            decreases self.entries.len() - i,
        {
            if self.entries[i].key == *key {
                proof {
                    lemma_merged_last_wins(attributes, i as int);
                }
                return Some(&self.entries[i].value);
            }
            i += 1;
        }
        proof {
            lemma_merged_keys(attributes, key@);
        }
        None
    }

    /// Returns the attributes of the context, each key once. Merged, they
    /// give the context back.
    pub fn entries(&self) -> (entries: &Vec<Entry>)
        ensures
            keys_differ(attributes_of(entries@)),
            merged(attributes_of(entries@)) == self@,
    {
        proof {
            use_type_invariant(self);
        }
        &self.entries
    }
}

/// Merges the attributes of all of `descriptors` into one context.
pub fn aggregate(descriptors: &Vec<RateLimitDescriptor>) -> (context: AttributeContext)
    ensures
        context@ == context_of(descriptors_of(descriptors@)),
{
    let ghost all = descriptors_of(descriptors@);
    let mut values = AttributeContext::new();
    let mut d: usize = 0;
    while d < descriptors.len()
        invariant
            d <= descriptors.len(),
            all == descriptors_of(descriptors@),
            values@ == context_of(all.take(d as int)),
        decreases descriptors.len() - d,
    {
        let entries = &descriptors[d].entries;
        let ghost done = flattened(all.take(d as int));
        let mut e: usize = 0;
        while e < entries.len()
            invariant
                e <= entries.len(),
                d < descriptors.len(),
                all == descriptors_of(descriptors@),
                all[d as int] == attributes_of(entries@),
                values@ == merged(done + all[d as int].take(e as int)),
            decreases entries.len() - e,
        {
            let entry = &entries[e];
            proof {
                let seen = done + all[d as int].take(e as int);
                lemma_merged_push(seen, entry@);
                assert(seen.push(entry@) =~= done + all[d as int].take(e as int + 1));
            }
            values.insert(entry.key.clone(), entry.value.clone());
            e += 1;
        }
        proof {
            assert(all[d as int].take(e as int) =~= all[d as int]);
            assert(all.take(d as int + 1).drop_last() =~= all.take(d as int));
        }
        d += 1;
    }
    proof {
        assert(all.take(d as int) =~= all);
    }
    values
}

} // verus!
