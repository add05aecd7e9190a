//! Fixed-size, C-style byte buffers filled from Rust strings.

use vstd::prelude::*;
use vstd::string::StringSliceAdditionalSpecFns;

verus! {

/// Whether a byte sequence holds a NUL byte anywhere.
pub open spec fn has_nul(bytes: Seq<u8>) -> bool {
    exists|i: int| 0 <= i < bytes.len() && bytes[i] == 0
}

/// The content of an `n`-byte C buffer filled from `bytes`: the bytes
/// followed by zeros, cut at `n`; all zeros when `bytes` holds a NUL byte
/// (such a string has no C representation).
pub open spec fn c_array_bytes(bytes: Seq<u8>, n: nat) -> Seq<u8> {
    Seq::new(n, |i: int| if !has_nul(bytes) && i < bytes.len() { bytes[i] } else { 0u8 })
}

/// A text without NUL bytes that is shorter than the buffer comes out whole
/// and NUL-terminated; a longer one comes out cut to the buffer.
pub proof fn lemma_c_array_content(bytes: Seq<u8>, n: nat)
    requires
        !has_nul(bytes),
    ensures
        bytes.len() < n ==> c_array_bytes(bytes, n).take(bytes.len() as int) == bytes
            && c_array_bytes(bytes, n)[bytes.len() as int] == 0u8,
        bytes.len() >= n ==> c_array_bytes(bytes, n) == bytes.take(n as int),
{
    if bytes.len() < n {
        assert(c_array_bytes(bytes, n).take(bytes.len() as int) =~= bytes);
    } else {
        assert(c_array_bytes(bytes, n) =~= bytes.take(n as int));
    }
}

/// Copies the UTF-8 bytes of `s` and a terminating NUL into an `N`-byte
/// array, truncating to `N` bytes. A string with an interior NUL byte yields
/// an all-zero array.
pub fn str_to_c_array<const N: usize>(s: &str) -> (res: [u8; N])
    ensures
        res@ == c_array_bytes(s.spec_bytes(), N as nat),
{
    let mut array: [u8; N] = [0u8; N];
    let bytes = s.as_bytes();
    let mut i: usize = 0;
    while i < bytes.len()
        invariant
            0 <= i <= bytes@.len(),
            bytes@ == s.spec_bytes(),
            forall|j: int| 0 <= j < i ==> bytes@[j] != 0,
            array@.len() == N,
            forall|j: int| 0 <= j < N ==> array@[j] == 0u8,
        decreases bytes@.len() - i,
    {
        if bytes[i] == 0 {
            assert(has_nul(bytes@));
            assert(array@ =~= c_array_bytes(s.spec_bytes(), N as nat));
            return array;
        }
        i = i + 1;
    }
    assert(!has_nul(bytes@));
    let len: usize = if bytes.len() < N { bytes.len() } else { N };
    let mut k: usize = 0;
    while k < len
        invariant
            0 <= k <= len,
            len <= N,
            len <= bytes@.len(),
            len == bytes@.len() || len == N,
            bytes@ == s.spec_bytes(),
            !has_nul(bytes@),
            array@.len() == N,
            forall|j: int| 0 <= j < k ==> array@[j] == bytes@[j],
            forall|j: int| k <= j < N ==> array@[j] == 0u8,
        decreases len - k,
    {
        array[k] = bytes[k];
        k = k + 1;
    }
    assert(array@ =~= c_array_bytes(s.spec_bytes(), N as nat));
    array
}

} // verus!
