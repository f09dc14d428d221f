//! Trusted bridge to the archive reader: extracting one named text entry
//! from a package archive held in memory.

use vstd::prelude::*;

verus! {

/// The text held at entry `name` of the archive bytes `data`: absent when
/// the bytes are not a readable archive, the entry does not exist, or its
/// contents are not text.
pub uninterp spec fn zip_entry_text_of(data: Seq<u8>, name: Seq<char>) -> Option<Seq<char>>;

/// Relies on `zip::ZipArchive` (`new`, `by_name`) and `Read::read_to_string`:
/// what an archive holds at a given entry name is a pure function of the
/// archive's bytes. A missing entry, an unreadable archive and non-text
/// contents all collapse to `None`, as the scan treats them alike.
#[verifier::external_body]
pub fn zip_entry_text(data: &[u8], name: &str) -> (r: Option<String>)
    ensures
        match r {
            Some(t) => zip_entry_text_of(data@, name@) == Some(t@),
            None => zip_entry_text_of(data@, name@) is None,
        },
{
    let mut archive = zip::ZipArchive::new(std::io::Cursor::new(data)).ok()?;
    let mut entry = archive.by_name(name).ok()?;
    let mut text = String::new();
    std::io::Read::read_to_string(&mut entry, &mut text).ok()?;
    Some(text)
}

} // verus!
