//! Sidecar locator: maps a logical sidecar name to the ordered list of
//! filesystem paths it may live at, and picks the first one that exists.
//!
//! The same logical binary is bundled differently depending on target
//! platform and packaging format, and the same code must run both from a
//! packaged installation and from a local development tree, so the locator
//! tries a fixed, ordered list of candidates. Probing the filesystem is the
//! caller's job: it hands `resolve` one existence flag per candidate, and
//! the selection itself is verified.

use vstd::prelude::*;
use vstd::string::*;
use crate::errors::AppError;

verus! {

/// View of an optional borrowed string as an optional character sequence.
pub open spec fn opt_str_view(o: Option<&str>) -> Option<Seq<char>> {
    match o {
        Some(s) => Some(s@),
        None => None,
    }
}

/// The candidate paths for a sidecar, in priority order: the bare name
/// under the resource root, then the triple-suffixed and the plain name
/// under the resource `binaries` directory, then the triple-suffixed and
/// the plain name under the development tree's `binaries` directory.
/// Without a resource root only the development-tree candidates remain.
pub open spec fn spec_candidates(
    name: Seq<char>,
    triple: Seq<char>,
    resource_root: Option<Seq<char>>,
    dev_root: Seq<char>,
) -> Seq<Seq<char>> {
    let dev = seq![
        dev_root + "/binaries/"@ + name + "-"@ + triple,
        dev_root + "/binaries/"@ + name,
    ];
    match resource_root {
        Some(rr) => seq![
            rr + "/"@ + name,
            rr + "/binaries/"@ + name + "-"@ + triple,
            rr + "/binaries/"@ + name,
        ] + dev,
        None => dev,
    }
}

/// Build the candidate paths for `name` on the platform `triple`, under
/// the packaged resource root (when the packaging gave one) and the
/// development tree root.
pub fn candidate_paths(
    name: &str,
    triple: &str,
    resource_root: Option<&str>,
    dev_root: &str,
) -> (r: Vec<String>)
    ensures
        r.deep_view() == spec_candidates(name@, triple@, opt_str_view(resource_root), dev_root@),
{
    let mut out: Vec<String> = Vec::new();
    if let Some(rr) = resource_root {
        let mut bare = String::from_str(rr);
        bare.append("/");
        bare.append(name);
        out.push(bare);
        let mut suffixed = String::from_str(rr);
        suffixed.append("/binaries/");
        suffixed.append(name);
        suffixed.append("-");
        suffixed.append(triple);
        out.push(suffixed);
        let mut plain = String::from_str(rr);
        plain.append("/binaries/");
        plain.append(name);
        out.push(plain);
    }
    let mut dev_suffixed = String::from_str(dev_root);
    dev_suffixed.append("/binaries/");
    dev_suffixed.append(name);
    dev_suffixed.append("-");
    dev_suffixed.append(triple);
    out.push(dev_suffixed);
    let mut dev_plain = String::from_str(dev_root);
    dev_plain.append("/binaries/");
    dev_plain.append(name);
    out.push(dev_plain);
    proof {
        assert(out.deep_view() =~~= spec_candidates(
            name@,
            triple@,
            opt_str_view(resource_root),
            dev_root@,
        ));
    }
    out
}

/// The first candidate whose probe found the path, if any.
pub open spec fn spec_resolve(candidates: Seq<Seq<char>>, present: Seq<bool>) -> Option<
    Seq<char>,
>
    decreases candidates.len(),
{
    if candidates.len() == 0 || present.len() == 0 {
        None
    } else if present[0] {
        Some(candidates[0])
    } else {
        spec_resolve(candidates.skip(1), present.skip(1))
    }
}

/// Resolution ignores a prefix of candidates whose probes all failed.
proof fn lemma_resolve_skip(candidates: Seq<Seq<char>>, present: Seq<bool>, i: int)
    requires
        candidates.len() == present.len(),
        0 <= i <= candidates.len(),
        forall|j: int| 0 <= j < i ==> !present[j],
    ensures
        spec_resolve(candidates, present) == spec_resolve(candidates.skip(i), present.skip(i)),
    decreases i,
{
    if i > 0 {
        lemma_resolve_skip(candidates.skip(1), present.skip(1), i - 1);
        assert(candidates.skip(1).skip(i - 1) =~= candidates.skip(i));
        assert(present.skip(1).skip(i - 1) =~= present.skip(i));
    } else {
        assert(candidates.skip(0) =~= candidates);
        assert(present.skip(0) =~= present);
    }
}

/// With no existing candidate at all, resolution finds nothing: it never
/// invents a path.
pub proof fn lemma_no_candidate_fails(candidates: Seq<Seq<char>>, present: Seq<bool>)
    requires
        candidates.len() == present.len(),
        forall|j: int| 0 <= j < present.len() ==> !present[j],
    ensures
        spec_resolve(candidates, present) is None,
{
    lemma_resolve_skip(candidates, present, candidates.len() as int);
}

/// A resolved path is always one of the candidates whose probe found it:
/// resolution never returns a path that does not exist.
pub proof fn lemma_resolved_path_was_present(candidates: Seq<Seq<char>>, present: Seq<bool>)
    requires
        candidates.len() == present.len(),
        spec_resolve(candidates, present) is Some,
    ensures
        exists|i: int|
            0 <= i < candidates.len() && present[i] && spec_resolve(candidates, present)
                == Some(candidates[i]),
    decreases candidates.len(),
{
    if candidates.len() > 0 && !present[0] {
        lemma_resolved_path_was_present(candidates.skip(1), present.skip(1));
        let i = choose|i: int|
            0 <= i < candidates.skip(1).len() && present.skip(1)[i] && spec_resolve(
                candidates.skip(1),
                present.skip(1),
            ) == Some(candidates.skip(1)[i]);
        assert(0 <= i + 1 < candidates.len() && present[i + 1] && spec_resolve(
            candidates,
            present,
        ) == Some(candidates[i + 1]));
    }
}

/// When exactly one candidate exists, resolution returns exactly that
/// candidate, whatever its position in the priority order.
pub proof fn lemma_only_candidate_wins(candidates: Seq<Seq<char>>, present: Seq<bool>, n: int)
    requires
        candidates.len() == present.len(),
        0 <= n < present.len(),
        present[n],
        forall|j: int| 0 <= j < present.len() && j != n ==> !present[j],
    ensures
        spec_resolve(candidates, present) == Some(candidates[n]),
{
    lemma_resolve_skip(candidates, present, n);
    assert(present.skip(n)[0] == present[n]);
}

/// Pick the first candidate whose probe found the path; with none, fail
/// with the not-found error for `name`. `present[i]` reports whether
/// `candidates[i]` existed on the filesystem at probe time.
pub fn resolve(name: &str, candidates: &Vec<String>, present: &Vec<bool>) -> (r: Result<
    String,
    AppError,
>)
    requires
        candidates@.len() == present@.len(),
    ensures
        match r {
            Ok(p) => spec_resolve(candidates.deep_view(), present@) == Some(p@),
            Err(e) => {
                &&& spec_resolve(candidates.deep_view(), present@) is None
                &&& e matches AppError::SidecarNotFound { name: n } && n@ == name@
            },
        },
{
    let ghost cs = candidates.deep_view();
    let mut i: usize = 0;
    while i < candidates.len()
        invariant
            candidates@.len() == present@.len(),
            cs == candidates.deep_view(),
            0 <= i <= candidates@.len(),
            forall|j: int| 0 <= j < i ==> !present@[j],
        decreases candidates@.len() - i,
    {
        if *present.get(i).unwrap() {
            proof {
                lemma_resolve_skip(cs, present@, i as int);
                assert(present@.skip(i as int)[0] == present@[i as int]);
                assert(cs.skip(i as int)[0] == cs[i as int]);
            }
            return Ok(candidates.get(i).unwrap().clone());
        }
        i = i + 1;
    }
    proof {
        lemma_no_candidate_fails(cs, present@);
    }
    Err(AppError::SidecarNotFound { name: name.to_owned() })
}

} // verus!
