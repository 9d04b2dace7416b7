//! UTF-16 text encoding for the windowing platform: window titles go into a
//! fixed-capacity wide-character buffer whose last usable unit is reserved
//! for a terminating sentinel, and a title that does not fit is a reportable
//! fault, never a silent truncation.
use vstd::prelude::*;
use vstd::string::*;

use crate::errors::StartupError;

verus! {

/// Capacity, in 16-bit units, of the window-title buffer handed to the
/// platform. One unit is reserved for the terminating sentinel, so a title
/// may occupy at most one unit less.
pub const TITLE_CAPACITY: usize = 1024;

/// The UTF-16 code units of a single character: one unit for a scalar below
/// the supplementary planes, a surrogate pair otherwise.
pub open spec fn utf16_units(c: char) -> Seq<u16> {
    let v = c as u32;
    if v < 0x10000 {
        seq![v as u16]
    } else {
        seq![
            (0xD800 + (v - 0x10000) / 0x400) as u16,
            (0xDC00 + (v - 0x10000) % 0x400) as u16,
        ]
    }
}

/// The UTF-16 encoding of a character sequence.
pub open spec fn utf16_of(s: Seq<char>) -> Seq<u16>
    decreases s.len(),
{
    if s.len() == 0 {
        Seq::empty()
    } else {
        utf16_of(s.drop_last()) + utf16_units(s.last())
    }
}

/// A sequence of characters that all lie below the supplementary planes
/// encodes one-to-one into UTF-16 units.
pub proof fn lemma_utf16_len_basic_plane(s: Seq<char>)
    requires
        forall|i: int| 0 <= i < s.len() ==> (s[i] as u32) < 0x10000,
    ensures
        utf16_of(s).len() == s.len(),
    decreases s.len(),
{
    if s.len() > 0 {
        assert(forall|i: int| 0 <= i < s.drop_last().len() ==> (s.drop_last()[i] as u32)
            < 0x10000);
        lemma_utf16_len_basic_plane(s.drop_last());
        assert((s.last() as u32) < 0x10000);
    }
}

/// Appends the UTF-16 encoding of one character to the buffer.
fn push_units(buf: &mut Vec<u16>, c: char)
    ensures
        final(buf)@ == old(buf)@ + utf16_units(c),
{
    proof {
        vstd::utf8::char_is_scalar(c);
    }
    let v: u32 = c as u32;
    if v < 0x10000 {
        buf.push(v as u16);
        assert(buf@ =~= old(buf)@ + utf16_units(c));
    } else {
        let w: u32 = v - 0x10000;
        buf.push((0xD800 + w / 0x400) as u16);
        buf.push((0xDC00 + w % 0x400) as u16);
        assert(buf@ =~= old(buf)@ + utf16_units(c));
    }
}

/// Encodes a string into UTF-16 code units, without a terminating sentinel.
pub fn encode_utf16(s: &str) -> (r: Vec<u16>)
    ensures
        r@ == utf16_of(s@),
{
    let n: usize = s.unicode_len();
    let mut buf: Vec<u16> = Vec::new();
    let mut i: usize = 0;
    while i < n
        invariant
            i <= n,
            n == s@.len(),
            buf@ == utf16_of(s@.subrange(0, i as int)),
        decreases n - i,
    {
        let c = s.get_char(i);
        push_units(&mut buf, c);
        proof {
            let pre = s@.subrange(0, (i + 1) as int);
            assert(pre.drop_last() =~= s@.subrange(0, i as int));
            assert(pre.last() == c);
        }
        i = i + 1;
    }
    proof {
        assert(s@.subrange(0, n as int) =~= s@);
    }
    buf
}

/// Encodes a title into the fixed-capacity title buffer. On success the
/// buffer holds the encoded units followed by zero units, so the terminating
/// sentinel sits exactly at the end of the encoded text. A title whose
/// encoding does not leave room for the sentinel is rejected outright: no
/// unit of it is handed on.
pub fn encode_title(title: &str) -> (r: Result<Vec<u16>, StartupError>)
    ensures
        match r {
            Ok(buf) => {
                &&& utf16_of(title@).len() < TITLE_CAPACITY
                &&& buf@.len() == TITLE_CAPACITY
                &&& buf@.subrange(0, utf16_of(title@).len() as int) == utf16_of(title@)
                &&& forall|j: int|
                    utf16_of(title@).len() <= j < TITLE_CAPACITY ==> buf@[j] == 0
            },
            Err(e) => {
                &&& e == StartupError::TitleTooLong
                &&& utf16_of(title@).len() >= TITLE_CAPACITY
            },
        },
{
    let mut buf = encode_utf16(title);
    if buf.len() >= TITLE_CAPACITY {
        return Err(StartupError::TitleTooLong);
    }
    let ghost encoded = utf16_of(title@);
    while buf.len() < TITLE_CAPACITY
        invariant
            encoded.len() < TITLE_CAPACITY,
            encoded.len() <= buf@.len() <= TITLE_CAPACITY,
            buf@.subrange(0, encoded.len() as int) == encoded,
            forall|j: int| encoded.len() <= j < buf@.len() ==> buf@[j] == 0,
        decreases TITLE_CAPACITY - buf.len(),
    {
        buf.push(0);
        assert(buf@.subrange(0, encoded.len() as int) =~= encoded);
    }
    Ok(buf)
}

/// The fixed name under which the window class is registered.
pub fn window_class_name() -> (r: &'static str)
    ensures
        r@ == "MiniGL"@,
{
    "MiniGL"
}

/// The registered class name as a sentinel-terminated UTF-16 unit sequence,
/// the form in which the platform takes it.
pub fn class_name_units() -> (r: Vec<u16>)
    ensures
        r@ == utf16_of("MiniGL"@) + seq![0u16],
{
    let mut buf = encode_utf16(window_class_name());
    buf.push(0);
    buf
}

} // verus!
