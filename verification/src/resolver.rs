//! The decision half of binary resolution: the ordered candidate list
//! (the bundled location first, then the system locations), and the
//! choice of the first candidate the surrounding code found present.
//! Probing the filesystem and the search path is the caller's side.

use vstd::prelude::*;
use vstd::string::StringExecFns;
use crate::text::concat_reason;

verus! {

/// The candidate locations of the external executable `name`, in the
/// order they are probed: the bundled `<name>-code` build first, then
/// the bare name and its `-code` variant on the search path, the system
/// locations, and last the caller's home-directory installation.
pub open spec fn candidate_locations(name: Seq<char>, home: Seq<char>) -> Seq<Seq<char>> {
    seq![
        "src-tauri/binaries/"@ + name + "-code-x86_64-unknown-linux-gnu"@,
        name,
        name + "-code"@,
        "/usr/local/bin/"@ + name,
        "/usr/bin/"@ + name,
        "/opt/homebrew/bin/"@ + name,
        home + "/.local/bin/"@ + name,
    ]
}

/// Builds the ordered candidate list for an executable name and a home
/// directory.
pub fn resolution_candidates(name: &str, home: &str) -> (r: Vec<String>)
    ensures
        r.deep_view() == candidate_locations(name@, home@),
{
    let mut r: Vec<String> = Vec::new();
    let bundled = concat_reason("src-tauri/binaries/", name);
    r.push(concat_reason(bundled.as_str(), "-code-x86_64-unknown-linux-gnu"));
    r.push(String::from_str(name));
    r.push(concat_reason(name, "-code"));
    r.push(concat_reason("/usr/local/bin/", name));
    r.push(concat_reason("/usr/bin/", name));
    r.push(concat_reason("/opt/homebrew/bin/", name));
    let dotlocal = concat_reason(home, "/.local/bin/");
    r.push(concat_reason(dotlocal.as_str(), name));
    proof {
        assert(r.deep_view() =~= candidate_locations(name@, home@));
    }
    r
}

/// Picks the first candidate reported present; when none is, resolution
/// fails with the descriptive reason and no process is ever spawned.
pub fn select_resolved(candidates: Vec<String>, available: &Vec<bool>) -> (r: Result<
    String,
    String,
>)
    requires
        candidates@.len() == available@.len(),
    ensures
        match r {
            Ok(p) => exists|i: int|
                0 <= i < available@.len() && available@[i] && p == candidates@[i] && (forall|j: int|
                    0 <= j < i ==> !available@[j]),
            Err(m) => (forall|i: int| 0 <= i < available@.len() ==> !available@[i]) && m@
                == "Executable not found in bundled location or system paths"@,
        },
{
    let mut i: usize = 0;
    while i < candidates.len()
        invariant
            i <= candidates@.len(),
            candidates@.len() == available@.len(),
            forall|j: int| 0 <= j < i ==> !available@[j],
        decreases candidates@.len() - i,
    {
        if available[i] {
            return Ok(candidates[i].clone());
        }
        i = i + 1;
    }
    Err(String::from_str("Executable not found in bundled location or system paths"))
}

} // verus!
