use vstd::prelude::*;
use vstd::string::StrSliceExecFns;

verus! {

/// Whether a text can be handed to the native layer, which takes
/// NUL-terminated strings: it must hold no embedded NUL character. (UTF-8
/// encodes the NUL character as the NUL byte and no other character's
/// encoding contains it, so this is exactly the byte-level condition the
/// native string form imposes.)
pub open spec fn representable(s: Seq<char>) -> bool {
    forall|i: int| 0 <= i < s.len() ==> s[i] != '\0'
}

/// Decides whether `text` is representable in the native string form.
pub fn check_representable(text: &str) -> (r: bool)
    ensures
        r == representable(text@),
{
    let len: usize = text.unicode_len();
    let mut i: usize = 0;
    while i < len
        invariant
            i <= len,
            len == text@.len(),
            forall|j: int| 0 <= j < i ==> text@[j] != '\0',
        decreases len - i,
    {
        if text.get_char(i) == '\0' {
            return false;
        }
        i = i + 1;
    }
    true
}

} // verus!
