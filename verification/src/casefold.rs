//! ASCII case folding, used to match alias tokens case-insensitively.

use vstd::prelude::*;

verus! {

/// Folds one character: an ASCII uppercase letter becomes its lowercase
/// counterpart, every other character is unchanged.
pub open spec fn fold_char(c: char) -> char {
    if 'A' as u32 <= c as u32 && c as u32 <= 'Z' as u32 {
        ((c as u32 + 32) as u32) as char
    } else {
        c
    }
}

/// Folds a text character by character.
pub open spec fn fold_text(s: Seq<char>) -> Seq<char> {
    s.map_values(|c: char| fold_char(c))
}

/// Whether two texts are equal up to ASCII letter case.
pub open spec fn fold_eq(a: Seq<char>, b: Seq<char>) -> bool {
    fold_text(a) == fold_text(b)
}

/// Folds one character at run time.
fn fold_char_exec(c: char) -> (r: char)
    ensures
        r == fold_char(c),
{
    let u = c as u32;
    if 'A' as u32 <= u && u <= 'Z' as u32 {
        let folded = (u + 32) as u8;
        proof {
            vstd::utf8::char_u32_cast(c, u);
        }
        folded as char
    } else {
        c
    }
}

/// Compares two strings for equality up to ASCII letter case.
pub fn str_fold_eq(a: &str, b: &str) -> (r: bool)
    ensures
        r == fold_eq(a@, b@),
{
    let an = a.unicode_len();
    let bn = b.unicode_len();
    if an != bn {
        proof {
            assert(fold_text(a@).len() != fold_text(b@).len());
        }
        return false;
    }
    let mut i: usize = 0;
    while i < an
        invariant
            an == a@.len(),
            bn == b@.len(),
            an == bn,
            i <= an,
            forall|j: int| 0 <= j < i ==> fold_char(a@[j]) == fold_char(b@[j]),
        decreases an - i,
    {
        let ca = a.get_char(i);
        let cb = b.get_char(i);
        if fold_char_exec(ca) != fold_char_exec(cb) {
            proof {
                assert(fold_text(a@)[i as int] != fold_text(b@)[i as int]);
            }
            return false;
        }
        i += 1;
    }
    proof {
        assert(fold_text(a@) =~= fold_text(b@));
    }
    true
}

} // verus!
