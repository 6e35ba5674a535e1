//! Locations of the standard-library build outputs, computed from a crate
//! manifest directory the caller supplies.

use vstd::prelude::*;

verus! {

/// One path joined onto another: an absolute right-hand side replaces the
/// base, anything else is appended behind a separator.
pub open spec fn joined_path(base: Seq<char>, relative: Seq<char>) -> Seq<char> {
    if relative.len() > 0 && relative[0] == '/' {
        relative
    } else {
        base + seq!['/'] + relative
    }
}

/// The path of `relative`, resolved against the crate manifest directory.
pub fn path_in_crate(manifest_dir: &str, relative: &str) -> (r: String)
    ensures
        r@ == joined_path(manifest_dir@, relative@),
{
    if relative.unicode_len() > 0 && relative.get_char(0) == '/' {
        relative.to_owned()
    } else {
        let mut joined = manifest_dir.to_owned();
        joined.append("/");
        joined.append(relative);
        proof {
            reveal_strlit("/");
            assert("/"@ =~= seq!['/']);
            assert(joined@ =~= joined_path(manifest_dir@, relative@));
        }
        joined
    }
}

/// The directory that receives generated build outputs.
pub fn generated_dir(manifest_dir: &str) -> (r: String)
    ensures
        r@ == joined_path(manifest_dir@, "../rooch-genesis/generated"@),
{
    path_in_crate(manifest_dir, "../rooch-genesis/generated")
}

/// The file that receives the built standard library.
pub fn stdlib_output_file(manifest_dir: &str) -> (r: String)
    ensures
        r@ == joined_path(
            joined_path(manifest_dir@, "../rooch-genesis/generated"@),
            "stdlib"@,
        ),
{
    let dir = generated_dir(manifest_dir);
    path_in_crate(dir.as_str(), "stdlib")
}

} // verus!
