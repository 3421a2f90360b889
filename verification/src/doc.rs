//! The generic document model: a tree of strings, sequences and ordered
//! mappings, as a structured-data parser hands it back.  The interpreter
//! consumes this tree; anything it does not recognise is `Other` and
//! degrades to a no-op downstream.

use vstd::prelude::*;

verus! {

/// A parsed structured-data value.  Mappings keep their entries in
/// document order; keys may themselves be arbitrary values.
pub enum Doc {
    /// A string scalar.
    Text(String),
    /// An ordered sequence of values.
    List(Vec<Doc>),
    /// An ordered mapping from values to values.
    Mapping(Vec<(Doc, Doc)>),
    /// Any other value (null, boolean, number, tagged, ...).
    Other,
}

/// The mathematical form of a parsed value: the same tree over
/// character sequences.
#[verifier::ext_equal]
pub enum DocV {
    Text(Seq<char>),
    List(Seq<DocV>),
    Mapping(Seq<(DocV, DocV)>),
    Other,
}

/// The mathematical form of a parsed value.
pub open spec fn doc_view(d: Doc) -> DocV
    decreases d,
{
    if d is Text {
        DocV::Text(d->Text_0@)
    } else if d is List {
        DocV::List(docs_view(d->List_0@))
    } else if d is Mapping {
        DocV::Mapping(doc_entries_view(d->Mapping_0@))
    } else {
        DocV::Other
    }
}

/// The mathematical forms of a sequence of parsed values, in order.
pub open spec fn docs_view(items: Seq<Doc>) -> Seq<DocV>
    decreases items,
{
    if items.len() == 0 {
        Seq::empty()
    } else {
        seq![doc_view(items[0])] + docs_view(items.subrange(1, items.len() as int))
    }
}

/// The mathematical forms of a sequence of mapping entries, in order.
pub open spec fn doc_entries_view(entries: Seq<(Doc, Doc)>) -> Seq<(DocV, DocV)>
    decreases entries,
{
    if entries.len() == 0 {
        Seq::empty()
    } else {
        seq![(doc_view(entries[0].0), doc_view(entries[0].1))] + doc_entries_view(
            entries.subrange(1, entries.len() as int),
        )
    }
}

impl View for Doc {
    type V = DocV;

    open spec fn view(&self) -> DocV {
        doc_view(*self)
    }
}

/// Whether mapping key `k` is the string `key`.
pub open spec fn key_matches(k: Doc, key: Seq<char>) -> bool {
    match k {
        Doc::Text(s) => s@ == key,
        _ => false,
    }
}

/// The value of the first entry of `entries` at or after position `i`
/// whose key is the string `key`.
pub open spec fn lookup_from(entries: Seq<(Doc, Doc)>, key: Seq<char>, i: int) -> Option<Doc>
    decreases entries.len() - i,
{
    if i < 0 || i >= entries.len() {
        None
    } else if key_matches(entries[i].0, key) {
        Some(entries[i].1)
    } else {
        lookup_from(entries, key, i + 1)
    }
}

/// The value of the first entry of `entries` whose key is the string `key`.
pub open spec fn lookup(entries: Seq<(Doc, Doc)>, key: Seq<char>) -> Option<Doc> {
    lookup_from(entries, key, 0)
}

/// Whether `s` and `t` hold the same characters.
pub fn string_eq_str(s: &String, t: &str) -> (r: bool)
    ensures
        r == (s@ == t@),
{
    let u: String = t.to_owned();
    *s == u
}

/// Looks `key` up among `entries`, in document order.
pub fn find_value<'a>(entries: &'a Vec<(Doc, Doc)>, key: &str) -> (r: Option<&'a Doc>)
    ensures
        match r {
            Some(d) => lookup(entries@, key@) == Some(*d),
            None => lookup(entries@, key@) is None,
        },
{
    let mut i: usize = 0;
    while i < entries.len()
        invariant
            0 <= i <= entries.len(),
            lookup(entries@, key@) == lookup_from(entries@, key@, i as int),
        decreases entries.len() - i,
    {
        let (k, v) = &entries[i];
        match k {
            Doc::Text(s) => {
                if string_eq_str(s, key) {
                    return Some(v);
                }
            },
            _ => {},
        }
        proof {
            assert(!key_matches(entries@[i as int].0, key@));
        }
        i = i + 1;
    }
    None
}

} // verus!
