//! The document tree: manifest text parses into this shape, to the depth the
//! normalizers read. Values the logic never inspects are collapsed to
//! `Other`; tables keep their entries as ordered key-value pairs.

use vstd::prelude::*;
use crate::strutil::str_eq;

verus! {

/// A value nested two tables deep: only text is ever read there.
#[derive(Debug, Clone)]
pub enum Leaf {
    Text(String),
    Other,
}

/// A value one level below a root field: text, or a table of leaves.
#[derive(Debug, Clone)]
pub enum Inner {
    Text(String),
    Table(Vec<(String, Leaf)>),
    Other,
}

/// A value at a root-level key: text, a list, or a table of inner values.
#[derive(Debug, Clone)]
pub enum DocField {
    Text(String),
    List(Vec<Inner>),
    Table(Vec<(String, Inner)>),
    Other,
}

/// A parsed document whose root is a table.
#[derive(Debug, Clone)]
pub struct Doc {
    pub fields: Vec<(String, DocField)>,
}

/// Mathematical model of a `Leaf`.
pub enum LeafV {
    Text(Seq<char>),
    Other,
}

/// Mathematical model of an `Inner`.
pub enum InnerV {
    Text(Seq<char>),
    Table(Seq<(Seq<char>, LeafV)>),
    Other,
}

/// Mathematical model of a `DocField`.
pub enum DocFieldV {
    Text(Seq<char>),
    List(Seq<InnerV>),
    Table(Seq<(Seq<char>, InnerV)>),
    Other,
}

/// Mathematical model of a `Doc`.
pub struct DocV {
    pub fields: Seq<(Seq<char>, DocFieldV)>,
}

/// The views of a table's entries: each key as characters, each value as its
/// own model.
pub open spec fn view_pairs<T: View>(entries: Seq<(String, T)>) -> Seq<(Seq<char>, T::V)> {
    entries.map_values(|p: (String, T)| (p.0@, p.1@))
}

impl View for Leaf {
    type V = LeafV;

    open spec fn view(&self) -> LeafV {
        match self {
            Leaf::Text(s) => LeafV::Text(s@),
            Leaf::Other => LeafV::Other,
        }
    }
}

impl View for Inner {
    type V = InnerV;

    open spec fn view(&self) -> InnerV {
        match self {
            Inner::Text(s) => InnerV::Text(s@),
            Inner::Table(t) => InnerV::Table(view_pairs(t@)),
            Inner::Other => InnerV::Other,
        }
    }
}

impl View for DocField {
    type V = DocFieldV;

    open spec fn view(&self) -> DocFieldV {
        match self {
            DocField::Text(s) => DocFieldV::Text(s@),
            DocField::List(l) => DocFieldV::List(l@.map_values(|i: Inner| i@)),
            DocField::Table(t) => DocFieldV::Table(view_pairs(t@)),
            DocField::Other => DocFieldV::Other,
        }
    }
}

impl View for Doc {
    type V = DocV;

    open spec fn view(&self) -> DocV {
        DocV { fields: view_pairs(self.fields@) }
    }
}

/// The value at `key` in an ordered table: the first entry whose key
/// matches, absent when none does.
pub open spec fn lookup<T>(entries: Seq<(Seq<char>, T)>, key: Seq<char>) -> Option<T>
    decreases entries.len(),
{
    if entries.len() == 0 {
        None
    } else if entries[0].0 == key {
        Some(entries[0].1)
    } else {
        lookup(entries.drop_first(), key)
    }
}

/// Looks `key` up in a table of owned entries, returning a reference to the
/// first matching value.
pub fn table_get<'a, T: View>(entries: &'a Vec<(String, T)>, key: &str) -> (r: Option<&'a T>)
    ensures
        match r {
            Some(t) => lookup(view_pairs(entries@), key@) == Some(t@),
            None => lookup(view_pairs(entries@), key@) is None,
        },
{
    let n = entries.len();
    let mut i: usize = 0;
    proof {
        assert(view_pairs(entries@).skip(0) =~= view_pairs(entries@));
    }
    while i < n
        invariant
            n == entries@.len(),
            i <= n,
            lookup(view_pairs(entries@), key@) == lookup(
                view_pairs(entries@).skip(i as int),
                key@,
            ),
        decreases n - i,
    {
        let p = &entries[i];
        proof {
            assert(view_pairs(entries@).skip(i as int)[0] == view_pairs(entries@)[i as int]);
        }
        if str_eq(p.0.as_str(), key) {
            return Some(&p.1);
        }
        proof {
            assert(view_pairs(entries@).skip(i as int).drop_first() =~= view_pairs(
                entries@,
            ).skip(i + 1));
        }
        i += 1;
    }
    proof {
        assert(view_pairs(entries@).skip(n as int) =~= Seq::<(Seq<char>, T::V)>::empty());
    }
    None
}

} // verus!
