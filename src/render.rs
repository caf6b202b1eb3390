use vstd::prelude::*;
use vstd::string::StringExecFns;

verus! {

/// The text of a vector whose components read `x`, `y` and `z`: the three
/// joined by a comma and a space, between square brackets.
pub open spec fn bracketed(x: Seq<char>, y: Seq<char>, z: Seq<char>) -> Seq<char> {
    seq!['['] + x + seq![',', ' '] + y + seq![',', ' '] + z + seq![']']
}

/// Frames three rendered components as `[x, y, z]`; each component is
/// rendered by the caller in whichever notation it wants (decimal, binary,
/// octal, hexadecimal, scientific), the same for all three.
pub fn render_components(x: &str, y: &str, z: &str) -> (r: String)
    ensures
        r@ == bracketed(x@, y@, z@),
{
    proof {
        reveal_strlit("[");
        reveal_strlit(", ");
        reveal_strlit("]");
    }
    let mut r = String::from_str("[");
    r.append(x);
    r.append(", ");
    r.append(y);
    r.append(", ");
    r.append(z);
    r.append("]");
    assert(r@ =~= bracketed(x@, y@, z@));
    r
}

} // verus!
