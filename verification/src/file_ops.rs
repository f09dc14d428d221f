//! The state controller's decisions: the file name a toggle renames to, and
//! the validation of a local install's source name. The renames and copies
//! themselves are filesystem work and stay outside the library.

use vstd::prelude::*;
use crate::strutil::{disabled_suffix, ends_with, ext_of, extension_of, package_ext, str_concat,
    str_ends_with, str_eq, substr_to_string};

verus! {

/// The name a toggle renames `s` to. Enabling strips one trailing disabled
/// marker if present; disabling appends one if absent; otherwise the name is
/// unchanged.
pub open spec fn spec_toggle_name(s: Seq<char>, enabled: bool) -> Seq<char> {
    if enabled {
        if ends_with(s, disabled_suffix()) {
            s.subrange(0, s.len() - disabled_suffix().len())
        } else {
            s
        }
    } else {
        if ends_with(s, disabled_suffix()) {
            s
        } else {
            s + disabled_suffix()
        }
    }
}

/// Computes the file name a toggle to `enabled` gives the file now named
/// `name`. The result equals `name` exactly when the operation is a no-op.
pub fn toggle_file_name(name: &str, enabled: bool) -> (r: String)
    ensures
        r@ == spec_toggle_name(name@, enabled),
{
    let marker = ".disabled";
    let has_marker = str_ends_with(name, marker);
    if enabled {
        if has_marker {
            let n = name.unicode_len();
            let m = marker.unicode_len();
            substr_to_string(name, 0, n - m)
        } else {
            name.to_owned()
        }
    } else {
        if has_marker {
            name.to_owned()
        } else {
            str_concat(name, marker)
        }
    }
}

/// Disabling a name that already carries the disabled marker leaves it
/// unchanged: the marker is never appended twice.
pub proof fn lemma_disable_idempotent(s: Seq<char>)
    requires
        ends_with(s, disabled_suffix()),
    ensures
        spec_toggle_name(s, false) == s,
{
}

/// Enabling a name that does not carry the disabled marker is a no-op.
pub proof fn lemma_enable_without_marker_noop(s: Seq<char>)
    requires
        !ends_with(s, disabled_suffix()),
    ensures
        spec_toggle_name(s, true) == s,
{
}

/// Disabling a name that does not carry the marker and then enabling the
/// result returns the original name.
pub proof fn lemma_toggle_round_trip(s: Seq<char>)
    requires
        !ends_with(s, disabled_suffix()),
    ensures
        spec_toggle_name(spec_toggle_name(s, false), true) == s,
{
    let d = disabled_suffix();
    let t = s + d;
    assert(t.subrange(t.len() - d.len(), t.len() as int) =~= d);
    assert(t.subrange(0, t.len() - d.len()) =~= s);
}

/// Validates the source file name of a local install: accepted exactly when
/// its extension is the package extension, rejected with the documented
/// message otherwise.
pub fn check_install_source(file_name: &str) -> (r: Result<(), String>)
    ensures
        r is Ok <==> ext_of(file_name@) == Some(package_ext()),
        match r {
            Ok(_) => true,
            Err(e) => if ext_of(file_name@) is None {
                e@ == "Invalid file extension"@
            } else {
                e@ == "Only .jar files are allowed"@
            },
        },
{
    match extension_of(file_name) {
        Some(e) => {
            if str_eq(e.as_str(), "jar") {
                Ok(())
            } else {
                Err("Only .jar files are allowed".to_owned())
            }
        },
        None => Err("Invalid file extension".to_owned()),
    }
}

} // verus!
