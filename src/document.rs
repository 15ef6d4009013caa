//! The schemaless document form used by the store: an ordered mapping of
//! string keys to heterogeneous values.
use vstd::prelude::*;

verus! {

/// A point in time, as seconds since the Unix epoch and nanoseconds.
#[derive(Clone, Copy, Debug, PartialEq, Eq, Structural)]
pub struct Timestamp {
    pub secs: i64,
    pub nanos: u32,
}

/// One value of a document.
#[derive(Debug, PartialEq)]
pub enum DocValue {
    Null,
    Str(String),
    Int(i64),
    Datetime(Timestamp),
    Array(Vec<DocValue>),
    Object(Vec<DocEntry>),
}

/// One key/value pair of a document object.
#[derive(Debug, PartialEq)]
pub struct DocEntry {
    pub key: String,
    pub value: DocValue,
}

/// A top-level document: an ordered sequence of entries.
#[derive(Debug, PartialEq)]
pub struct Document {
    pub entries: Vec<DocEntry>,
}

/// Mathematical form of a document value.
pub enum Doc {
    Null,
    Str(Seq<char>),
    Int(int),
    Datetime(Timestamp),
    Array(Seq<Doc>),
    Object(Seq<(Seq<char>, Doc)>),
}

impl DocValue {
    pub open spec fn view(&self) -> Doc
        decreases self,
    {
        match self {
            DocValue::Null => Doc::Null,
            DocValue::Str(s) => Doc::Str(s@),
            DocValue::Int(n) => Doc::Int(*n as int),
            DocValue::Datetime(t) => Doc::Datetime(*t),
            DocValue::Array(items) => Doc::Array(
                Seq::new(
                    items.len() as nat,
                    |i: int|
                        if 0 <= i < items.len() {
                            items[i].view()
                        } else {
                            Doc::Null
                        },
                ),
            ),
            DocValue::Object(entries) => Doc::Object(
                Seq::new(
                    entries.len() as nat,
                    |i: int|
                        if 0 <= i < entries.len() {
                            (entries[i].key@, entries[i].value.view())
                        } else {
                            (Seq::empty(), Doc::Null)
                        },
                ),
            ),
        }
    }
}


/// Mathematical form of a sequence of entries.
pub open spec fn entries_view(entries: Seq<DocEntry>) -> Seq<(Seq<char>, Doc)> {
    Seq::new(entries.len(), |i: int| (entries[i].key@, entries[i].value@))
}

impl Document {
    pub open spec fn view(&self) -> Seq<(Seq<char>, Doc)> {
        entries_view(self.entries@)
    }
}

/// The view of an array value, element by element.
pub proof fn lemma_array_view(items: Vec<DocValue>)
    ensures
        DocValue::Array(items)@ == Doc::Array(Seq::new(items.len() as nat, |i: int| items@[i]@)),
{
    assert(DocValue::Array(items)@->Array_0 =~= Seq::new(items.len() as nat, |i: int| items@[i]@));
}

/// The view of an object value, entry by entry.
pub proof fn lemma_object_view(entries: Vec<DocEntry>)
    ensures
        DocValue::Object(entries)@ == Doc::Object(entries_view(entries@)),
{
    assert(DocValue::Object(entries)@->Object_0 =~= entries_view(entries@));
}

/// `i` is the first position of `entries` whose key is `key`.
pub open spec fn first_match(entries: Seq<(Seq<char>, Doc)>, key: Seq<char>, i: int) -> bool {
    &&& 0 <= i < entries.len()
    &&& entries[i].0 == key
    &&& forall|j: int| 0 <= j < i ==> entries[j].0 != key
}

/// The value stored under `key`: that of its first occurrence.
pub open spec fn lookup(entries: Seq<(Seq<char>, Doc)>, key: Seq<char>) -> Option<Doc> {
    if exists|i: int| first_match(entries, key, i) {
        Some(entries[choose|i: int| first_match(entries, key, i)].1)
    } else {
        None
    }
}

/// The value stored under `key` in `entries`, if any.
pub fn get<'a>(entries: &'a Vec<DocEntry>, key: &String) -> (r: Option<&'a DocValue>)
    ensures
        match r {
            Some(v) => lookup(entries_view(entries@), key@) == Some(v@),
            None => lookup(entries_view(entries@), key@) is None,
        },
{
    let ghost es = entries_view(entries@);
    let mut i: usize = 0;
    while i < entries.len()
        invariant
            i <= entries.len(),
            es == entries_view(entries@),
            forall|j: int| 0 <= j < i ==> es[j].0 != key@,
        decreases entries.len() - i,
    {
        if entries[i].key.eq(key) {
            assert(first_match(es, key@, i as int));
            proof {
                let k = choose|k: int| first_match(es, key@, k);
                assert(k == i as int) by {
                    if k < i {
                        assert(es[k].0 != key@);
                    } else if k > i {
                        assert(es[i as int].0 == key@);
                    }
                }
            }
            return Some(&entries[i].value);
        }
        i = i + 1;
    }
    assert(!exists|k: int| first_match(es, key@, k));
    None
}

} // verus!
