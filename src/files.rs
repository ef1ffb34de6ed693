//! Names of the object files of the line format: `<id>.txt`.
use vstd::prelude::*;

use crate::codec::is_digits;

verus! {

/// A name made of ASCII digits followed by `.txt`.
pub open spec fn is_numbered_txt(name: Seq<char>) -> bool {
    name.len() > 4 && is_digits(name.subrange(0, name.len() - 4)) && name.subrange(
        name.len() - 4,
        name.len() as int,
    ) == ".txt"@
}

/// The name without its last four characters.
pub open spec fn stem(name: Seq<char>) -> Seq<char> {
    name.subrange(0, name.len() - 4)
}

/// Relies on `regex::Regex::captures` with the pattern `^(\d+)\.txt$`: the
/// group is the whole name before `.txt`, made of digits; a name of ASCII
/// digits before `.txt` always matches.
#[verifier::external_body]
fn capture_numbered_txt(name: &str) -> (r: Option<String>)
    ensures
        r matches Some(d) ==> d@.len() > 0 && name@ == d@ + ".txt"@,
        r is Some || !is_numbered_txt(name@),
{
    let re = regex::Regex::new(r"^(\d+)\.txt$").unwrap();
    match re.captures(name) {
        Some(c) => match c.get(1) {
            Some(m) => Some(m.as_str().to_string()),
            None => None,
        },
        None => None,
    }
}

/// The object identifier that names an object file: the digits before
/// `.txt`. Names of any other shape give `None`.
pub fn object_file_id(file_name: &str) -> (r: Option<String>)
    ensures
        r matches Some(d) ==> d@.len() > 0 && file_name@ == d@ + ".txt"@,
        is_numbered_txt(file_name@) ==> (r matches Some(d) && d@ == stem(file_name@)),

{
    let r = capture_numbered_txt(file_name);
    proof {
        reveal_strlit(".txt");
        if r is Some {
            assert(stem(file_name@) =~= r->0@);
        }
    }
    r
}

} // verus!
