//! Path joining and the permission fix-up, the two filesystem-facing rules
//! of the pipeline, as pure functions on values.

use vstd::prelude::*;

verus! {

/// Joining a relative name onto a directory: one separator between them,
/// none doubled, and the name alone under an empty directory.
pub open spec fn spec_join(dir: Seq<char>, name: Seq<char>) -> Seq<char> {
    if dir.len() == 0 {
        name
    } else if dir.last() == '/' {
        dir + name
    } else {
        dir + "/"@ + name
    }
}

/// Joins a relative name onto a directory path.
pub fn join_path(dir: &str, name: &str) -> (r: String)
    ensures
        r@ == spec_join(dir@, name@),
{
    let n = dir.unicode_len();
    let mut out = String::from_str(dir);
    if n == 0 {
        out.append(name);
        proof {
            assert(out@ =~= name@);
        }
        out
    } else {
        if dir.get_char(n - 1) != '/' {
            out.append("/");
        }
        out.append(name);
        proof {
            assert(out@ =~= spec_join(dir@, name@));
        }
        out
    }
}

/// The permission bits the fix-up writes, whatever bits the file had:
/// read and execute for everyone, write for the owner.
pub open spec fn spec_fixup_mode(current: u32) -> u32 {
    0o755u32
}

/// The unconditional permission fix-up applied to the entry executable's
/// current permission bits.
pub fn fixup_mode(current: u32) -> (r: u32)
    ensures
        r == spec_fixup_mode(current),
{
    0o755
}

/// The fix-up is idempotent: applied to bits it has already produced, it
/// leaves them as they are.
pub proof fn lemma_fixup_idempotent(current: u32)
    ensures
        spec_fixup_mode(spec_fixup_mode(current)) == spec_fixup_mode(current),
{
}

} // verus!
