//! The repository scanner: extracts metadata from one archive, and
//! aggregates the records of a directory's candidate archives, silently
//! dropping everything that does not normalize.

use vstd::prelude::*;
use crate::archive::{zip_entry_text, zip_entry_text_of};
use crate::decode::{json_doc_of, parse_json_doc, parse_toml_doc, toml_doc_of};
use crate::models::{ModFile, ModFileV, ModMetadata, ModMetadataV, views_of};
use crate::normalize::{normalize_fabric, normalize_table, spec_normalize_fabric,
    spec_normalize_table};
use crate::strutil::{ext_of, has_extension, package_ext};

verus! {

/// The record the Fabric dialect yields for an archive: its well-known
/// entry, read as JSON and normalized. Absent whenever any step fails.
pub open spec fn spec_fabric_record(
    data: Seq<u8>,
    file_name: Seq<char>,
    file_path: Seq<char>,
    enabled: bool,
) -> Option<ModMetadataV> {
    match zip_entry_text_of(data, "fabric.mod.json"@) {
        Some(text) => match json_doc_of(text) {
            Some(doc) => spec_normalize_fabric(doc, file_name, file_path, enabled),
            None => None,
        },
        None => None,
    }
}

/// The text the table dialect reads: of its two candidate entry names,
/// tried in order, the first present entry's text wins. A present entry
/// that yields no record is not stepped over.
pub open spec fn spec_table_text(data: Seq<u8>) -> Option<Seq<char>> {
    match zip_entry_text_of(data, "META-INF/mods.toml"@) {
        Some(text) => Some(text),
        None => zip_entry_text_of(data, "META-INF/neoforge.mods.toml"@),
    }
}

/// The record the table dialect yields for an archive: the first present
/// candidate entry's text, read as a structured document and normalized.
/// Absent whenever any step fails.
pub open spec fn spec_table_record(
    data: Seq<u8>,
    file_name: Seq<char>,
    file_path: Seq<char>,
    enabled: bool,
) -> Option<ModMetadataV> {
    match spec_table_text(data) {
        Some(text) => match toml_doc_of(text) {
            Some(doc) => spec_normalize_table(doc, file_name, file_path, enabled),
            None => None,
        },
        None => None,
    }
}

/// The record an archive yields: the Fabric dialect first, then the table
/// dialect on the first present of its two candidate entries.
pub open spec fn spec_parse_mod(
    data: Seq<u8>,
    file_name: Seq<char>,
    file_path: Seq<char>,
    enabled: bool,
) -> Option<ModMetadataV> {
    let fabric = spec_fabric_record(data, file_name, file_path, enabled);
    if fabric is Some {
        fabric
    } else {
        spec_table_record(data, file_name, file_path, enabled)
    }
}

/// Extracts the unified metadata record of one archive, if either dialect
/// recognizes it.
pub fn parse_mod_metadata(data: &[u8], file_name: &str, file_path: &str, enabled: bool) -> (r:
    Option<ModMetadata>)
    ensures
        match r {
            Some(m) => spec_parse_mod(data@, file_name@, file_path@, enabled) == Some(m@),
            None => spec_parse_mod(data@, file_name@, file_path@, enabled) is None,
        },
{
    match zip_entry_text(data, "fabric.mod.json") {
        Some(text) => {
            match parse_json_doc(text.as_str()) {
                Some(doc) => {
                    match normalize_fabric(&doc, file_name, file_path, enabled) {
                        Some(m) => {
                            return Some(m);
                        },
                        None => {},
                    }
                },
                None => {},
            }
        },
        None => {},
    }
    let table_text: Option<String> = match zip_entry_text(data, "META-INF/mods.toml") {
        Some(text) => Some(text),
        None => zip_entry_text(data, "META-INF/neoforge.mods.toml"),
    };
    match table_text {
        Some(text) => match parse_toml_doc(text.as_str()) {
            Some(doc) => normalize_table(&doc, file_name, file_path, enabled),
            None => None,
        },
        None => None,
    }
}

/// The enabled state a directory entry's name implies: enabled for the
/// package extension, disabled for the marker extension, nothing otherwise.
pub open spec fn spec_entry_enabled(name: Seq<char>) -> Option<bool> {
    if ext_of(name) == Some(package_ext()) {
        Some(true)
    } else if ext_of(name) == Some("disabled"@) {
        Some(false)
    } else {
        None
    }
}

/// The records a scan of the given entries returns, in order: candidate
/// archives that normalize, everything else dropped.
pub open spec fn spec_scan(entries: Seq<ModFileV>) -> Seq<ModMetadataV>
    decreases entries.len(),
{
    if entries.len() == 0 {
        Seq::empty()
    } else {
        let head: Seq<ModMetadataV> = match spec_entry_enabled(entries[0].file_name) {
            Some(enabled) => match spec_parse_mod(
                entries[0].data,
                entries[0].file_name,
                entries[0].file_path,
                enabled,
            ) {
                Some(m) => seq![m],
                None => Seq::empty(),
            },
            None => Seq::empty(),
        };
        head + spec_scan(entries.drop_first())
    }
}

/// A record whose `enabled` flag matches its file name's extension: the
/// package extension exactly when enabled, the disabled marker extension
/// exactly when disabled.
pub open spec fn record_state_consistent(m: ModMetadataV) -> bool {
    if m.enabled {
        ext_of(m.file_name) == Some(package_ext())
    } else {
        ext_of(m.file_name) == Some("disabled"@)
    }
}

/// A parsed record keeps the file name, path and enabled flag it was handed:
/// both dialects copy them into the record unchanged.
pub proof fn lemma_parse_keeps_identity(
    data: Seq<u8>,
    file_name: Seq<char>,
    file_path: Seq<char>,
    enabled: bool,
)
    ensures
        spec_parse_mod(data, file_name, file_path, enabled) matches Some(m) ==> m.file_name
            == file_name && m.file_path == file_path && m.enabled == enabled,
{
}

/// Every record a scan returns carries the enabled flag its file name's
/// extension implies; no record with any other extension is returned.
pub proof fn lemma_scan_state_consistent(entries: Seq<ModFileV>)
    ensures
        forall|i: int|
            0 <= i < spec_scan(entries).len() ==> #[trigger] record_state_consistent(
                spec_scan(entries)[i],
            ),
    decreases entries.len(),
{
    if entries.len() == 0 {
    } else {
        lemma_scan_state_consistent(entries.drop_first());
        let rest = spec_scan(entries.drop_first());
        let head: Seq<ModMetadataV> = match spec_entry_enabled(entries[0].file_name) {
            Some(enabled) => match spec_parse_mod(
                entries[0].data,
                entries[0].file_name,
                entries[0].file_path,
                enabled,
            ) {
                Some(m) => seq![m],
                None => Seq::empty(),
            },
            None => Seq::empty(),
        };
        match spec_entry_enabled(entries[0].file_name) {
            Some(enabled) => {
                lemma_parse_keeps_identity(
                    entries[0].data,
                    entries[0].file_name,
                    entries[0].file_path,
                    enabled,
                );
            },
            None => {},
        }
        assert forall|i: int|
            0 <= i < spec_scan(entries).len() implies #[trigger] record_state_consistent(
            spec_scan(entries)[i],
        ) by {
            if i < head.len() {
                assert(spec_scan(entries)[i] == head[0]);
            } else {
                assert(spec_scan(entries)[i] == rest[i - head.len()]);
                assert(record_state_consistent(rest[i - head.len()]));
            }
        }
    }
}

/// Scans the given directory entries and returns the unified metadata
/// records of every recognized mod archive among them.
pub fn scan_mods(files: &Vec<ModFile>) -> (r: Vec<ModMetadata>)
    ensures
        views_of(r@) == spec_scan(views_of(files@)),
        forall|k: int|
            0 <= k < r@.len() ==> record_state_consistent(#[trigger] r@[k]@),
{
    let ghost all: Seq<ModFileV> = views_of(files@);
    let mut r: Vec<ModMetadata> = Vec::new();
    let mut i: usize = 0;
    proof {
        assert(all.skip(0) =~= all);
        assert(views_of(r@) + spec_scan(all) =~= spec_scan(all));
    }
    while i < files.len()
        invariant
            all == views_of(files@),
            i <= files@.len(),
            views_of(r@) + spec_scan(all.skip(i as int)) == spec_scan(all),
        decreases files@.len() - i,
    {
        let f = &files[i];
        proof {
            assert(all.skip(i as int)[0] == f@);
            assert(all.skip(i as int).drop_first() =~= all.skip(i + 1));
        }
        let enabled: Option<bool> = if has_extension(f.file_name.as_str(), "jar") {
            Some(true)
        } else if has_extension(f.file_name.as_str(), "disabled") {
            Some(false)
        } else {
            None
        };
        let ghost prev = r@;
        match enabled {
            Some(en) => {
                match parse_mod_metadata(
                    f.data.as_slice(),
                    f.file_name.as_str(),
                    f.file_path.as_str(),
                    en,
                ) {
                    Some(m) => {
                        r.push(m);
                        proof {
                            assert(views_of(r@) =~= views_of(prev) + seq![r@[r@.len() - 1]@]);
                            assert(views_of(r@) + spec_scan(all.skip(i + 1)) =~= views_of(prev)
                                + spec_scan(all.skip(i as int)));
                        }
                    },
                    None => {},
                }
            },
            None => {},
        }
        i += 1;
    }
    proof {
        assert(all.skip(files@.len() as int) =~= Seq::<ModFileV>::empty());
        assert(views_of(r@) + spec_scan(all.skip(files@.len() as int)) =~= views_of(r@));
        lemma_scan_state_consistent(all);
        assert forall|k: int| 0 <= k < r@.len() implies record_state_consistent(
            #[trigger] r@[k]@,
        ) by {
            assert(r@[k]@ == views_of(r@)[k]);
        }
    }
    r
}

} // verus!
