//! Entry-point inference: the first directory entry whose name ends with the
//! runtime-config sidecar suffix encodes the executable's name.

use vstd::prelude::*;

use crate::errors::BuildError;

verus! {

/// The sidecar suffix that marks a runtime-config file.
pub open spec fn sidecar_suffix() -> Seq<char> {
    ".runtimeconfig.json"@
}

/// `s` ends with `suffix`.
pub open spec fn ends_with(s: Seq<char>, suffix: Seq<char>) -> bool {
    suffix.len() <= s.len() && s.subrange(s.len() - suffix.len(), s.len() as int) == suffix
}

/// A file name that marks the entry executable.
pub open spec fn is_sidecar(name: Seq<char>) -> bool {
    ends_with(name, sidecar_suffix())
}

/// The executable name a sidecar file name encodes: the name without the
/// suffix.
pub open spec fn stripped(name: Seq<char>) -> Seq<char>
    recommends
        is_sidecar(name),
{
    name.subrange(0, name.len() - sidecar_suffix().len())
}

/// What resolution returns on the names from index `i` on: the stem of the
/// first sidecar name, in listing order.
pub open spec fn resolve_from(names: Seq<Seq<char>>, i: int) -> Option<Seq<char>>
    decreases names.len() - i,
{
    if i < 0 || i >= names.len() {
        None
    } else if is_sidecar(names[i]) {
        Some(stripped(names[i]))
    } else {
        resolve_from(names, i + 1)
    }
}

/// What resolution returns on a whole listing.
pub open spec fn spec_resolve(names: Seq<Seq<char>>) -> Option<Seq<char>> {
    resolve_from(names, 0)
}

/// The views of a listing's names.
pub open spec fn name_views(names: Seq<String>) -> Seq<Seq<char>> {
    names.map_values(|s: String| s@)
}

/// Whether `s` ends with `suffix`, by characters.
fn str_ends_with(s: &str, suffix: &str) -> (r: bool)
    ensures
        r == ends_with(s@, suffix@),
{
    let n = s.unicode_len();
    let m = suffix.unicode_len();
    if m > n {
        return false;
    }
    let mut i: usize = 0;
    while i < m
        invariant
            m <= n,
            n == s@.len(),
            m == suffix@.len(),
            i <= m,
            forall|j: int| 0 <= j < i ==> s@[n - m + j] == suffix@[j],
        decreases m - i,
    {
        if s.get_char(n - m + i) != suffix.get_char(i) {
            assert(!ends_with(s@, suffix@)) by {
                if ends_with(s@, suffix@) {
                    assert(s@.subrange(n - m, n as int)[i as int] == suffix@[i as int]);
                }
            }
            return false;
        }
        i += 1;
    }
    assert(s@.subrange(n - m, n as int) =~= suffix@);
    true
}

/// If `name` carries the sidecar suffix, the executable name it encodes.
pub fn strip_sidecar_suffix(name: &str) -> (r: Option<String>)
    ensures
        match r {
            Some(x) => is_sidecar(name@) && x@ == stripped(name@),
            None => !is_sidecar(name@),
        },
{
    let suffix = ".runtimeconfig.json";
    if str_ends_with(name, suffix) {
        let n = name.unicode_len();
        let m = suffix.unicode_len();
        let stem = name.substring_char(0, n - m);
        Some(String::from_str(stem))
    } else {
        None
    }
}

/// Scans the listing in the given order; the first name ending with the
/// sidecar suffix wins and its stem is returned. With no such name the run
/// fails with the unsupported-inference error, never any other.
pub fn resolve_entry_point(names: &Vec<String>) -> (r: Result<String, BuildError>)
    ensures
        match r {
            Ok(x) => spec_resolve(name_views(names@)) == Some(x@),
            Err(e) => spec_resolve(name_views(names@)) is None && e
                == BuildError::UnsupportedInference,
        },
{
    let ghost views = name_views(names@);
    let mut i: usize = 0;
    while i < names.len()
        invariant
            i <= names.len(),
            views == name_views(names@),
            resolve_from(views, 0) == resolve_from(views, i as int),
        decreases names.len() - i,
    {
        proof {
            assert(views[i as int] == names@[i as int]@);
        }
        match strip_sidecar_suffix(names[i].as_str()) {
            Some(x) => {
                return Ok(x);
            },
            None => {},
        }
        i += 1;
    }
    Err(BuildError::UnsupportedInference)
}

/// Resolution fails exactly on listings with no sidecar name at all.
pub proof fn lemma_resolve_fails_iff_no_sidecar(names: Seq<Seq<char>>)
    ensures
        spec_resolve(names) is None <==> (forall|i: int|
            0 <= i < names.len() ==> !is_sidecar(names[i])),
{
    lemma_resolve_from_none(names, 0);
}

proof fn lemma_resolve_from_none(names: Seq<Seq<char>>, k: int)
    requires
        0 <= k <= names.len(),
    ensures
        resolve_from(names, k) is None <==> (forall|i: int|
            k <= i < names.len() ==> !is_sidecar(names[i])),
    decreases names.len() - k,
{
    if k < names.len() {
        lemma_resolve_from_none(names, k + 1);
    }
}

proof fn lemma_resolve_from_first(names: Seq<Seq<char>>, k: int, i: int)
    requires
        0 <= k <= i < names.len(),
        is_sidecar(names[i]),
        forall|j: int| k <= j < i ==> !is_sidecar(names[j]),
    ensures
        resolve_from(names, k) == Some(stripped(names[i])),
    decreases i - k,
{
    if k < i {
        lemma_resolve_from_first(names, k + 1, i);
    }
}

/// A listing with exactly one sidecar name resolves to that name's stem,
/// whatever other names stand beside it.
pub proof fn lemma_unique_sidecar_resolves(names: Seq<Seq<char>>, i: int)
    requires
        0 <= i < names.len(),
        is_sidecar(names[i]),
        forall|j: int| 0 <= j < names.len() && j != i ==> !is_sidecar(names[j]),
    ensures
        spec_resolve(names) == Some(stripped(names[i])),
{
    lemma_resolve_from_first(names, 0, i);
}

/// A listing whose one and only sidecar name is a stem with the suffix
/// appended resolves to that stem, whatever other names stand beside it.
pub proof fn lemma_unique_named_sidecar_resolves(names: Seq<Seq<char>>, i: int, stem: Seq<char>)
    requires
        0 <= i < names.len(),
        names[i] == stem + sidecar_suffix(),
        forall|j: int| 0 <= j < names.len() && j != i ==> !is_sidecar(names[j]),
    ensures
        spec_resolve(names) == Some(stem),
{
    lemma_strip_appended_suffix(stem);
    lemma_unique_sidecar_resolves(names, i);
}

/// Whatever resolution returns is the stem of one of the sidecar names in
/// the listing; with several sidecars, listing order picks the winner.
pub proof fn lemma_resolved_is_candidate(names: Seq<Seq<char>>, x: Seq<char>)
    requires
        spec_resolve(names) == Some(x),
    ensures
        exists|i: int| 0 <= i < names.len() && is_sidecar(names[i]) && x == stripped(names[i]),
{
    lemma_resolve_from_candidate(names, 0, x);
}

proof fn lemma_resolve_from_candidate(names: Seq<Seq<char>>, k: int, x: Seq<char>)
    requires
        0 <= k,
        resolve_from(names, k) == Some(x),
    ensures
        exists|i: int| k <= i < names.len() && is_sidecar(names[i]) && x == stripped(names[i]),
    decreases names.len() - k,
{
    if k < names.len() {
        if is_sidecar(names[k]) {
            assert(k <= k < names.len() && is_sidecar(names[k]) && x == stripped(names[k]));
        } else {
            lemma_resolve_from_candidate(names, k + 1, x);
        }
    }
}

/// Stripping undoes appending the sidecar suffix to a stem.
pub proof fn lemma_strip_appended_suffix(stem: Seq<char>)
    ensures
        is_sidecar(stem + sidecar_suffix()),
        stripped(stem + sidecar_suffix()) == stem,
{
    let n = stem + sidecar_suffix();
    assert(n.subrange(n.len() - sidecar_suffix().len(), n.len() as int) =~= sidecar_suffix());
    assert(n.subrange(0, n.len() - sidecar_suffix().len()) =~= stem);
}

} // verus!
