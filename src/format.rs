use vstd::prelude::*;
use vstd::string::{StrSliceExecFns, StringExecFns};

verus! {

/// `n` spaces.
pub open spec fn spaces(n: nat) -> Seq<char> {
    Seq::new(n, |i: int| ' ')
}

/// `s` fitted to exactly `width` characters: cut to its first `width`
/// characters when it is at least that long, else centred between spaces,
/// the left side taking the smaller half of the shortfall.
pub open spec fn padded(s: Seq<char>, width: nat) -> Seq<char> {
    if s.len() >= width {
        s.subrange(0, width as int)
    } else {
        let deficit = (width - s.len()) as nat;
        let left = deficit / 2;
        spaces(left) + s + spaces((deficit - left) as nat)
    }
}

/// A fitted string is exactly `width` characters long, and a string that is
/// already that long comes back unchanged.
pub proof fn lemma_padded_width(s: Seq<char>, width: nat)
    ensures
        padded(s, width).len() == width,
        s.len() == width ==> padded(s, width) == s,
{
    if s.len() == width {
        assert(s.subrange(0, width as int) =~= s);
    }
}

/// Appends `n` spaces to `out`.
fn push_spaces(out: &mut String, n: usize)
    ensures
        final(out)@ == old(out)@ + spaces(n as nat),
{
    let ghost start = out@;
    let mut i: usize = 0;
    while i < n
        invariant
            i <= n,
            out@ == start + spaces(i as nat),
        decreases n - i,
    {
        proof {
            reveal_strlit(" ");
        }
        out.append(" ");
        i = i + 1;
        assert(out@ =~= start + spaces(i as nat));
    }
}

/// Fits `s` to exactly `length` characters (counting characters, not bytes):
/// a longer string is cut, a shorter one is centred between spaces.
pub fn pad_or_trim_string(s: &str, length: usize) -> (r: String)
    ensures
        r@ == padded(s@, length as nat),
        r@.len() == length,
{
    proof {
        lemma_padded_width(s@, length as nat);
    }
    let s_len = s.unicode_len();
    if s_len >= length {
        String::from_str(s.substring_char(0, length))
    } else {
        let padding = length - s_len;
        let pad_left = padding / 2;
        let pad_right = padding - pad_left;
        let mut out = String::new();
        push_spaces(&mut out, pad_left);
        out.append(s);
        push_spaces(&mut out, pad_right);
        assert(out@ =~= padded(s@, length as nat));
        out
    }
}

} // verus!
