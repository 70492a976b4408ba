//! Derivation of the application's reverse-domain identifier.

use vstd::prelude::*;

verus! {

/// The fixed naming template: the reverse-domain prefix followed by the
/// game's short id.
pub open spec fn spec_flatpak_id(game_id: Seq<char>) -> Seq<char> {
    "edu.rit.csh.devcade.game.id-"@ + game_id
}

/// Derives the application identifier from the game's short id alone.
pub fn flatpak_id_for_game(game_id: &str) -> (r: String)
    ensures
        r@ == spec_flatpak_id(game_id@),
{
    let mut r = String::from_str("edu.rit.csh.devcade.game.id-");
    r.append(game_id);
    r
}

/// The derived identifier is one-to-one in the game id: distinct ids never
/// collide on the same application identifier.
pub proof fn lemma_flatpak_id_injective(a: Seq<char>, b: Seq<char>)
    requires
        spec_flatpak_id(a) == spec_flatpak_id(b),
    ensures
        a == b,
{
    let p = "edu.rit.csh.devcade.game.id-"@;
    assert((p + a).len() == (p + b).len());
    assert(a.len() == b.len());
    assert forall|i: int| 0 <= i < a.len() implies a[i] == b[i] by {
        assert((p + a)[p.len() + i] == a[i]);
        assert((p + b)[p.len() + i] == b[i]);
    }
    assert(a =~= b);
}

} // verus!
