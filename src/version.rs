//! Fixed-capacity version text.
//!
//! The driver writes its firmware and SDK version strings into a buffer of
//! `VERSION_CAPACITY` bytes. A string longer than that is cut at the capacity;
//! bytes after the string are zero.
use vstd::prelude::*;

verus! {

/// Capacity, in bytes, of a version buffer.
pub const VERSION_CAPACITY: usize = 128;

/// The byte at index `i` of the fixed buffer that holds `text`.
pub open spec fn fixed_byte(text: Seq<u8>, i: int) -> u8 {
    if i < text.len() {
        text[i]
    } else {
        0u8
    }
}

/// The buffer that holds `text`, as a sequence of `VERSION_CAPACITY` bytes.
pub open spec fn fixed_seq(text: Seq<u8>) -> Seq<u8> {
    Seq::new(VERSION_CAPACITY as nat, |i: int| fixed_byte(text, i))
}

/// Whether `n` is where the text of a buffer ends: before the first zero byte,
/// or at the end where no byte is zero.
pub open spec fn is_text_end(buf: Seq<u8>, n: int) -> bool {
    0 <= n <= buf.len() && (n < buf.len() ==> buf[n] == 0u8) && forall|j: int|
        0 <= j < n ==> buf[j] != 0u8
}

/// Places `text` in a buffer of `VERSION_CAPACITY` bytes: the first bytes of
/// the text, cut at the capacity, then zero bytes. Never fails and never writes
/// past the buffer.
pub fn fixed_text(text: &[u8]) -> (r: [u8; 128])
    ensures
        r@ == fixed_seq(text@),
{
    let mut buf: [u8; 128] = [0u8; 128];
    let mut i: usize = 0;
    while i < VERSION_CAPACITY && i < text.len()
        invariant
            0 <= i <= VERSION_CAPACITY,
            i <= text@.len(),
            forall|j: int| 0 <= j < i ==> #[trigger] buf[j] == text@[j],
            forall|j: int| i <= j < VERSION_CAPACITY ==> #[trigger] buf[j] == 0u8,
        decreases VERSION_CAPACITY - i,
    {
        buf[i] = text[i];
        i = i + 1;
    }
    assert(buf@ =~= fixed_seq(text@));
    buf
}

/// The text of a version buffer: its bytes up to the first zero byte.
pub fn version_text(buf: &[u8; 128]) -> (r: Vec<u8>)
    ensures
        is_text_end(buf@, r@.len() as int),
        r@ == buf@.subrange(0, r@.len() as int),
{
    let mut out: Vec<u8> = Vec::new();
    let mut i: usize = 0;
    while i < VERSION_CAPACITY && buf[i] != 0u8
        invariant
            0 <= i <= VERSION_CAPACITY,
            buf@.len() == VERSION_CAPACITY,
            out@ == buf@.subrange(0, i as int),
            forall|j: int| 0 <= j < i ==> buf@[j] != 0u8,
        decreases VERSION_CAPACITY - i,
    {
        out.push(buf[i]);
        i = i + 1;
        assert(out@ =~= buf@.subrange(0, i as int));
    }
    out
}

/// A text without zero bytes, placed in a version buffer and read back, comes
/// out whole where it fits and cut at `VERSION_CAPACITY` bytes where it does not.
pub proof fn lemma_version_round_trip(text: Seq<u8>)
    requires
        forall|j: int| 0 <= j < text.len() ==> text[j] != 0u8,
    ensures
        ({
            let n = if text.len() < VERSION_CAPACITY { text.len() as int } else { VERSION_CAPACITY as int };
            &&& is_text_end(fixed_seq(text), n)
            &&& fixed_seq(text).subrange(0, n) == text.subrange(0, n)
            &&& forall|m: int| is_text_end(fixed_seq(text), m) ==> m == n
        }),
{
    let n = if text.len() < VERSION_CAPACITY { text.len() as int } else { VERSION_CAPACITY as int };
    let b = fixed_seq(text);
    assert(b.subrange(0, n) =~= text.subrange(0, n));
    assert forall|m: int| is_text_end(b, m) implies m == n by {
        if m < n {
            assert(b[m] != 0u8);
        } else if m > n {
            assert(b[n] == 0u8);
        }
    }
}

} // verus!
