//! The metadata normalizer: turns a parsed manifest document of either
//! dialect into the unified metadata record, applying the documented
//! defaults and the coercion of the polymorphic author field.

use vstd::prelude::*;
use crate::doc::{Doc, DocField, DocFieldV, DocV, Inner, InnerV, Leaf, LeafV, lookup, table_get};
use crate::models::{ModMetadata, ModMetadataV, views_of};

verus! {

/// The text of a root field, or `dflt` when the field is absent or not text.
pub open spec fn field_text_or(f: Option<DocFieldV>, dflt: Seq<char>) -> Seq<char> {
    match f {
        Some(DocFieldV::Text(t)) => t,
        _ => dflt,
    }
}

/// The text at `key` of an inner table, or `dflt` when absent or not text.
pub open spec fn entry_text_or(
    entries: Seq<(Seq<char>, LeafV)>,
    key: Seq<char>,
    dflt: Seq<char>,
) -> Seq<char> {
    match lookup(entries, key) {
        Some(LeafV::Text(t)) => t,
        _ => dflt,
    }
}

/// The author name one element of an `authors` array contributes: the
/// element itself when it is text, its `name` entry when it is a table
/// carrying one, nothing otherwise.
pub open spec fn author_of_element(i: InnerV) -> Option<Seq<char>> {
    match i {
        InnerV::Text(t) => Some(t),
        InnerV::Table(entries) => match lookup(entries, "name"@) {
            Some(LeafV::Text(t)) => Some(t),
            _ => None,
        },
        InnerV::Other => None,
    }
}

/// The author names of an `authors` array, in order, conforming elements
/// only.
pub open spec fn authors_of_list(items: Seq<InnerV>) -> Seq<Seq<char>>
    decreases items.len(),
{
    if items.len() == 0 {
        Seq::empty()
    } else {
        match author_of_element(items[0]) {
            Some(t) => seq![t] + authors_of_list(items.drop_first()),
            None => authors_of_list(items.drop_first()),
        }
    }
}

/// The coercion of the polymorphic Fabric `authors` field: absent or of an
/// unrecognized shape gives no authors, a single text gives one, an array
/// gives its conforming elements.
pub open spec fn fabric_authors(f: Option<DocFieldV>) -> Seq<Seq<char>> {
    match f {
        Some(DocFieldV::List(items)) => authors_of_list(items),
        Some(DocFieldV::Text(t)) => seq![t],
        _ => Seq::empty(),
    }
}

/// The record a Fabric-style descriptor normalizes to: present exactly when
/// the document carries a text `id`, with the documented defaults for the
/// other fields.
pub open spec fn spec_normalize_fabric(
    doc: DocV,
    file_name: Seq<char>,
    file_path: Seq<char>,
    enabled: bool,
) -> Option<ModMetadataV> {
    match lookup(doc.fields, "id"@) {
        Some(DocFieldV::Text(id)) => Some(
            ModMetadataV {
                file_name,
                file_path,
                name: field_text_or(lookup(doc.fields, "name"@), id),
                id,
                version: field_text_or(lookup(doc.fields, "version"@), "0.0.0"@),
                description: field_text_or(lookup(doc.fields, "description"@), ""@),
                authors: fabric_authors(lookup(doc.fields, "authors"@)),
                enabled,
            },
        ),
        _ => None,
    }
}

/// The entries of an array element when it is a table; an element of any
/// other shape has none, so every field of it falls back to its default.
pub open spec fn element_entries(i: InnerV) -> Seq<(Seq<char>, LeafV)> {
    match i {
        InnerV::Table(t) => t,
        _ => Seq::empty(),
    }
}

/// The record a table-based descriptor normalizes to: present exactly when
/// the document carries a non-empty `mods` array, read from that array's
/// first element only.
pub open spec fn spec_normalize_table(
    doc: DocV,
    file_name: Seq<char>,
    file_path: Seq<char>,
    enabled: bool,
) -> Option<ModMetadataV> {
    match lookup(doc.fields, "mods"@) {
        Some(DocFieldV::List(items)) => if items.len() == 0 {
            None
        } else {
            let entries = element_entries(items[0]);
            let mod_id = entry_text_or(entries, "modId"@, "unknown"@);
            Some(
                ModMetadataV {
                    file_name,
                    file_path,
                    name: entry_text_or(entries, "displayName"@, mod_id),
                    id: mod_id,
                    version: entry_text_or(entries, "version"@, "0.0.0"@),
                    description: entry_text_or(entries, "description"@, ""@),
                    authors: seq![entry_text_or(entries, "authors"@, ""@)],
                    enabled,
                },
            )
        },
        _ => None,
    }
}

/// Returns the text of a root field, or a copy of `dflt` when the field is
/// absent or not text.
fn get_field_text_or(doc: &Doc, key: &str, dflt: &str) -> (r: String)
    ensures
        r@ == field_text_or(lookup(doc@.fields, key@), dflt@),
{
    match table_get(&doc.fields, key) {
        Some(DocField::Text(t)) => t.clone(),
        _ => dflt.to_owned(),
    }
}

/// Returns the text at `key` of an inner table, or a copy of `dflt`.
pub(crate) fn get_entry_text_or(entries: &Vec<(String, Leaf)>, key: &str, dflt: &str) -> (r: String)
    ensures
        r@ == entry_text_or(crate::doc::view_pairs(entries@), key@, dflt@),
{
    match table_get(entries, key) {
        Some(Leaf::Text(t)) => t.clone(),
        _ => dflt.to_owned(),
    }
}

/// Returns the author name one array element contributes, if any.
fn author_of(item: &Inner) -> (r: Option<String>)
    ensures
        match r {
            Some(s) => author_of_element(item@) == Some(s@),
            None => author_of_element(item@) is None,
        },
{
    match item {
        Inner::Text(t) => Some(t.clone()),
        Inner::Table(entries) => match table_get(entries, "name") {
            Some(Leaf::Text(t)) => Some(t.clone()),
            _ => None,
        },
        Inner::Other => None,
    }
}

/// Collects the author names of an `authors` array, in order.
fn collect_authors(items: &Vec<Inner>) -> (r: Vec<String>)
    ensures
        views_of(r@) == authors_of_list(views_of(items@)),
{
    let ghost all: Seq<InnerV> = views_of(items@);
    let mut r: Vec<String> = Vec::new();
    let mut i: usize = 0;
    proof {
        assert(all.skip(0) =~= all);
        assert(views_of(r@) + authors_of_list(all) =~= authors_of_list(all));
    }
    while i < items.len()
        invariant
            all == views_of(items@),
            i <= items@.len(),
            views_of(r@) + authors_of_list(all.skip(i as int)) == authors_of_list(all),
        decreases items@.len() - i,
    {
        let item = &items[i];
        proof {
            assert(all.skip(i as int)[0] == item@);
            assert(all.skip(i as int).drop_first() =~= all.skip(i + 1));
        }
        let ghost prev = r@;
        match author_of(item) {
            Some(name) => {
                r.push(name);
                proof {
                    assert(views_of(r@) =~= views_of(prev) + seq![r@[r@.len() - 1]@]);
                    assert(views_of(r@) + authors_of_list(all.skip(i + 1)) =~= views_of(prev)
                        + authors_of_list(all.skip(i as int)));
                }
            },
            None => {},
        }
        i += 1;
    }
    proof {
        assert(all.skip(items@.len() as int) =~= Seq::<InnerV>::empty());
        assert(views_of(r@) + authors_of_list(all.skip(items@.len() as int)) =~= views_of(r@));
    }
    r
}

/// Coerces the polymorphic `authors` field into an ordered author list.
fn coerce_fabric_authors(f: Option<&DocField>) -> (r: Vec<String>)
    ensures
        match f {
            Some(fv) => views_of(r@) == fabric_authors(Some(fv@)),
            None => views_of(r@) == fabric_authors(None),
        },
{
    match f {
        Some(DocField::List(items)) => collect_authors(items),
        Some(DocField::Text(t)) => {
            let mut r: Vec<String> = Vec::new();
            r.push(t.clone());
            proof {
                assert(views_of(r@) =~= seq![t@]);
            }
            r
        },
        _ => {
            let r: Vec<String> = Vec::new();
            proof {
                assert(views_of(r@) =~= Seq::<Seq<char>>::empty());
            }
            r
        },
    }
}

/// Normalizes a Fabric-style descriptor document, if it declares an `id`.
pub fn normalize_fabric(doc: &Doc, file_name: &str, file_path: &str, enabled: bool) -> (r: Option<
    ModMetadata,
>)
    ensures
        match r {
            Some(m) => spec_normalize_fabric(doc@, file_name@, file_path@, enabled) == Some(m@),
            None => spec_normalize_fabric(doc@, file_name@, file_path@, enabled) is None,
        },
{
    let id: String = match table_get(&doc.fields, "id") {
        Some(DocField::Text(t)) => t.clone(),
        _ => {
            return None;
        },
    };
    let name = get_field_text_or(doc, "name", id.as_str());
    let version = get_field_text_or(doc, "version", "0.0.0");
    let description = get_field_text_or(doc, "description", "");
    let authors = coerce_fabric_authors(table_get(&doc.fields, "authors"));
    Some(
        ModMetadata {
            file_name: file_name.to_owned(),
            file_path: file_path.to_owned(),
            name,
            id,
            version,
            description,
            authors,
            enabled,
        },
    )
}

/// Normalizes a table-based descriptor document, if it declares a non-empty
/// `mods` array.
pub fn normalize_table(doc: &Doc, file_name: &str, file_path: &str, enabled: bool) -> (r: Option<
    ModMetadata,
>)
    ensures
        match r {
            Some(m) => spec_normalize_table(doc@, file_name@, file_path@, enabled) == Some(m@),
            None => spec_normalize_table(doc@, file_name@, file_path@, enabled) is None,
        },
{
    let items: &Vec<Inner> = match table_get(&doc.fields, "mods") {
        Some(DocField::List(items)) => items,
        _ => {
            return None;
        },
    };
    if items.len() == 0 {
        return None;
    }
    let first = &items[0];
    proof {
        assert(views_of(items@)[0] == first@);
    }
    let empty_entries: Vec<(String, Leaf)> = Vec::new();
    let entries: &Vec<(String, Leaf)> = match first {
        Inner::Table(t) => t,
        _ => &empty_entries,
    };
    proof {
        assert(crate::doc::view_pairs(empty_entries@) =~= Seq::<(Seq<char>, LeafV)>::empty());
    }
    let mod_id = get_entry_text_or(entries, "modId", "unknown");
    let name = get_entry_text_or(entries, "displayName", mod_id.as_str());
    let version = get_entry_text_or(entries, "version", "0.0.0");
    let description = get_entry_text_or(entries, "description", "");
    let author = get_entry_text_or(entries, "authors", "");
    let mut authors: Vec<String> = Vec::new();
    authors.push(author);
    proof {
        assert(views_of(authors@) =~= seq![authors@[0]@]);
    }
    Some(
        ModMetadata {
            file_name: file_name.to_owned(),
            file_path: file_path.to_owned(),
            name,
            id: mod_id,
            version,
            description,
            authors,
            enabled,
        },
    )
}

} // verus!
