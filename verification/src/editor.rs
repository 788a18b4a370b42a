//! Helpers for the native editor window that parents a plugin's GUI.
//!
//! The windowing itself — querying the plugin's GUI extension, creating a
//! host window and the hide → unparent → destroy teardown order — is
//! platform FFI and lives outside the library. What the library owns is
//! the window-system text encoding the platform glue needs.

use vstd::prelude::*;
use vstd::string::*;

verus! {

/// The UTF-16 code units of one character: the unit itself below the
/// supplementary planes, else the surrogate pair.
pub open spec fn utf16_units(c: char) -> Seq<u16> {
    if (c as int) < 0x10000 {
        seq![c as u16]
    } else {
        seq![
            (0xD800 + ((c as int) - 0x10000) / 0x400) as u16,
            (0xDC00 + ((c as int) - 0x10000) % 0x400) as u16,
        ]
    }
}

/// The UTF-16 encoding of a string.
pub open spec fn utf16_of(s: Seq<char>) -> Seq<u16>
    decreases s.len(),
{
    if s.len() == 0 {
        Seq::empty()
    } else {
        utf16_of(s.drop_last()) + utf16_units(s.last())
    }
}

/// Encode a string as a null-terminated wide (UTF-16) string for the
/// platform window API.
pub fn to_wide(s: &str) -> (r: Vec<u16>)
    ensures
        r@ == utf16_of(s@) + seq![0u16],
{
    let n = s.unicode_len();
    let mut out: Vec<u16> = Vec::new();
    let mut i: usize = 0;
    proof {
        assert(s@.take(0) =~= Seq::<char>::empty());
        assert(out@ =~= utf16_of(s@.take(0)));
    }
    while i < n
        invariant
            n == s@.len(),
            i <= n,
            out@ == utf16_of(s@.take(i as int)),
        decreases n - i,
    {
        let c = s.get_char(i);
        let cp = c as u32;
        proof {
            assert(s@.take(i + 1).drop_last() =~= s@.take(i as int));
            assert(s@.take(i + 1).last() == s@[i as int]);
        }
        if cp < 0x10000 {
            out.push(cp as u16);
            proof {
                assert(out@ =~= utf16_of(s@.take(i as int)) + utf16_units(s@[i as int]));
            }
        } else {
            let off = cp - 0x10000;
            let hi: u16 = (0xD800 + (off / 0x400)) as u16;
            let lo: u16 = (0xDC00 + (off % 0x400)) as u16;
            out.push(hi);
            out.push(lo);
            proof {
                assert(out@ =~= utf16_of(s@.take(i as int)) + utf16_units(s@[i as int]));
            }
        }
        i = i + 1;
    }
    proof {
        assert(s@.take(n as int) =~= s@);
    }
    out.push(0);
    out
}

} // verus!
