//! Reading launcher profiles out of the launcher's configuration document:
//! the text is parsed as JSON and each entry of its `profiles` mapping
//! becomes a profile with a resolved mods-directory path.

use vstd::prelude::*;
use crate::decode::{json_doc_of, parse_json_doc};
use crate::doc::{DocField, DocFieldV, DocV, Inner, InnerV, Leaf, LeafV, lookup, table_get,
    view_pairs};
use crate::models::{LauncherProfile, LauncherProfileV, views_of};
use crate::normalize::{element_entries, entry_text_or, get_entry_text_or};
use crate::strutil::str_concat;
use vstd::string::*;

verus! {

/// `child` under the directory `dir`, joined with a single separator.
pub open spec fn spec_join_path(dir: Seq<char>, child: Seq<char>) -> Seq<char> {
    if dir.len() == 0 {
        child
    } else if dir[dir.len() - 1] == '/' {
        dir + child
    } else {
        dir + "/"@ + child
    }
}

/// Joins `child` under `dir` with a `/` separator, adding none when `dir`
/// already ends with one or is empty.
pub fn join_path(dir: &str, child: &str) -> (r: String)
    ensures
        r@ == spec_join_path(dir@, child@),
{
    let n = dir.unicode_len();
    if n == 0 {
        child.to_owned()
    } else if dir.get_char(n - 1) == '/' {
        str_concat(dir, child)
    } else {
        let base = str_concat(dir, "/");
        str_concat(base.as_str(), child)
    }
}

/// The profile one entry of the `profiles` mapping yields: the key is the
/// profile id, the display name defaults, and the mods directory is the
/// profile's own game directory when it names one, else `base_dir`, with
/// `mods` joined under it.
pub open spec fn spec_profile_of(
    id: Seq<char>,
    entry: InnerV,
    base_dir: Seq<char>,
) -> LauncherProfileV {
    let entries = element_entries(entry);
    LauncherProfileV {
        id,
        name: entry_text_or(entries, "name"@, "Unnamed Profile"@),
        mods_dir: match lookup(entries, "gameDir"@) {
            Some(LeafV::Text(d)) => spec_join_path(d, "mods"@),
            _ => spec_join_path(base_dir, "mods"@),
        },
    }
}

/// The profiles of the `profiles` mapping's entries, in order.
pub open spec fn spec_profiles_of_entries(
    entries: Seq<(Seq<char>, InnerV)>,
    base_dir: Seq<char>,
) -> Seq<LauncherProfileV>
    decreases entries.len(),
{
    if entries.len() == 0 {
        Seq::empty()
    } else {
        seq![spec_profile_of(entries[0].0, entries[0].1, base_dir)] + spec_profiles_of_entries(
            entries.drop_first(),
            base_dir,
        )
    }
}

/// The profiles a configuration document yields: one per entry of its
/// `profiles` mapping, none when that mapping is absent or of another shape.
pub open spec fn spec_launcher_profiles(doc: DocV, base_dir: Seq<char>) -> Seq<LauncherProfileV> {
    match lookup(doc.fields, "profiles"@) {
        Some(DocFieldV::Table(entries)) => spec_profiles_of_entries(entries, base_dir),
        _ => Seq::empty(),
    }
}

/// Builds the profile one mapping entry yields.
fn profile_of(id: &String, entry: &Inner, base_dir: &str) -> (r: LauncherProfile)
    ensures
        r@ == spec_profile_of(id@, entry@, base_dir@),
{
    let empty_entries: Vec<(String, Leaf)> = Vec::new();
    let entries: &Vec<(String, Leaf)> = match entry {
        Inner::Table(t) => t,
        _ => &empty_entries,
    };
    proof {
        assert(view_pairs(empty_entries@) =~= Seq::<(Seq<char>, LeafV)>::empty());
    }
    let name = get_entry_text_or(entries, "name", "Unnamed Profile");
    let mods_dir = match table_get(entries, "gameDir") {
        Some(Leaf::Text(d)) => join_path(d.as_str(), "mods"),
        _ => join_path(base_dir, "mods"),
    };
    LauncherProfile { id: id.clone(), name, mods_dir }
}

/// Parses the launcher's configuration text and returns its profiles, the
/// mods directory of each resolved against `base_dir` (the directory the
/// configuration document sits in).
pub fn parse_launcher_profiles(text: &str, base_dir: &str) -> (r: Result<
    Vec<LauncherProfile>,
    String,
>)
    ensures
        match r {
            Ok(ps) => json_doc_of(text@) matches Some(d) && views_of(ps@)
                == spec_launcher_profiles(d, base_dir@),
            Err(e) => json_doc_of(text@) is None && e@
                == "Failed to parse launcher_profiles.json"@,
        },
{
    let doc = match parse_json_doc(text) {
        Some(d) => d,
        None => {
            return Err("Failed to parse launcher_profiles.json".to_owned());
        },
    };
    let entries: &Vec<(String, Inner)> = match table_get(&doc.fields, "profiles") {
        Some(DocField::Table(t)) => t,
        _ => {
            let r: Vec<LauncherProfile> = Vec::new();
            proof {
                assert(views_of(r@) =~= Seq::<LauncherProfileV>::empty());
            }
            return Ok(r);
        },
    };
    let ghost all: Seq<(Seq<char>, InnerV)> = view_pairs(entries@);
    let mut r: Vec<LauncherProfile> = Vec::new();
    let mut i: usize = 0;
    proof {
        assert(all.skip(0) =~= all);
        assert(views_of(r@) + spec_profiles_of_entries(all, base_dir@) =~= spec_profiles_of_entries(
            all,
            base_dir@,
        ));
    }
    while i < entries.len()
        invariant
            all == view_pairs(entries@),
            i <= entries@.len(),
            views_of(r@) + spec_profiles_of_entries(all.skip(i as int), base_dir@)
                == spec_profiles_of_entries(all, base_dir@),
        decreases entries@.len() - i,
    {
        let p = &entries[i];
        proof {
            assert(all.skip(i as int)[0] == all[i as int]);
            assert(all.skip(i as int).drop_first() =~= all.skip(i + 1));
        }
        let ghost prev = r@;
        let profile = profile_of(&p.0, &p.1, base_dir);
        r.push(profile);
        proof {
            assert(views_of(r@) =~= views_of(prev) + seq![r@[r@.len() - 1]@]);
            assert(views_of(r@) + spec_profiles_of_entries(all.skip(i + 1), base_dir@)
                =~= views_of(prev) + spec_profiles_of_entries(all.skip(i as int), base_dir@));
        }
        i += 1;
    }
    proof {
        assert(all.skip(entries@.len() as int) =~= Seq::<(Seq<char>, InnerV)>::empty());
        assert(views_of(r@) + spec_profiles_of_entries(all.skip(entries@.len() as int), base_dir@)
            =~= views_of(r@));
    }
    Ok(r)
}

} // verus!
