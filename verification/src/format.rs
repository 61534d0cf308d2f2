//! Target-format validation: the gateway converts only to the formats on the
//! allow-list, compared case-insensitively against what the caller wrote in
//! the request path.

use vstd::prelude::*;

verus! {

/// ASCII lowercasing of one byte; bytes outside `A`..`Z` are unchanged.
pub open spec fn lower_byte(b: u8) -> u8 {
    if 65u8 <= b && b <= 90u8 {
        (b + 32) as u8
    } else {
        b
    }
}

/// ASCII lowercasing of a byte string.
pub open spec fn lower_bytes(s: Seq<u8>) -> Seq<u8> {
    s.map_values(|b: u8| lower_byte(b))
}

/// The bytes of `epub`.
pub open spec fn epub_bytes() -> Seq<u8> {
    seq![101u8, 112u8, 117u8, 98u8]
}

/// The bytes of `mobi`.
pub open spec fn mobi_bytes() -> Seq<u8> {
    seq![109u8, 111u8, 98u8, 105u8]
}

/// Allow-list membership: the format, lowercased, is `epub` or `mobi`.
pub open spec fn format_allowed(s: Seq<u8>) -> bool {
    lower_bytes(s) == epub_bytes() || lower_bytes(s) == mobi_bytes()
}

/// ASCII-lowercases a byte string.
pub fn lower_ascii(s: &Vec<u8>) -> (r: Vec<u8>)
    ensures
        r@ == lower_bytes(s@),
{
    let mut r: Vec<u8> = Vec::new();
    let mut i: usize = 0;
    while i < s.len()
        invariant
            i <= s.len(),
            r@ == lower_bytes(s@.subrange(0, i as int)),
        decreases s.len() - i,
    {
        let b = s[i];
        let lb = if b >= 65 && b <= 90 {
            b + 32
        } else {
            b
        };
        r.push(lb);
        proof {
            assert(r@ =~= lower_bytes(s@.subrange(0, i + 1 as int)));
        }
        i = i + 1;
    }
    proof {
        assert(s@.subrange(0, s@.len() as int) =~= s@);
    }
    r
}

/// Decides whether the caller's target format is on the allow-list,
/// case-insensitively.
pub fn format_is_allowed(s: &Vec<u8>) -> (r: bool)
    ensures
        r == format_allowed(s@),
{
    let lowered = lower_ascii(s);
    if lowered.len() != 4 {
        return false;
    }
    let is_epub = lowered[0] == 101u8 && lowered[1] == 112u8 && lowered[2] == 117u8 && lowered[3]
        == 98u8;
    let is_mobi = lowered[0] == 109u8 && lowered[1] == 111u8 && lowered[2] == 98u8 && lowered[3]
        == 105u8;
    proof {
        if is_epub {
            assert(lowered@ =~= epub_bytes());
        }
        if is_mobi {
            assert(lowered@ =~= mobi_bytes());
        }
    }
    is_epub || is_mobi
}

} // verus!
