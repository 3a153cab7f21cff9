//! The single-instance guard: whether this process is the only one.
//!
//! The caller asks the operating system to create a marker with a fixed
//! name, system-wide and in one atomic step, and hands over what came back.
//! The process may run only if the marker was created by this very call.

use vstd::prelude::*;

verus! {

/// The code by which the operating system says that the marker was there
/// already.
pub const ERROR_ALREADY_EXISTS: u32 = 183;

/// Whether a process is the sole instance, given that the operating system
/// handed back a marker or none (`has_marker`) and reported `last_error`.
pub open spec fn sole_instance(has_marker: bool, last_error: u32) -> bool {
    has_marker && last_error != ERROR_ALREADY_EXISTS
}

/// Whether this process is the sole instance.
///
/// `handle_is_null` says that creating the marker failed altogether;
/// `last_error` is the code that the operating system reported for the
/// attempt. Any failure counts as "not alone": the service rather refuses to
/// run than runs twice.
pub fn check_single_instance(handle_is_null: bool, last_error: u32) -> (sole: bool)
    ensures
        sole == sole_instance(!handle_is_null, last_error),
{
    if handle_is_null {
        return false;
    }
    last_error != ERROR_ALREADY_EXISTS
}

/// The UTF-16 code units of one character: itself where it fits in sixteen
/// bits, else a high and a low surrogate.
pub open spec fn utf16_of_char(c: char) -> Seq<u16> {
    let code = c as u32;
    if code < 0x10000 {
        seq![code as u16]
    } else {
        seq![
            (0xD800 + (code - 0x10000) / 0x400) as u16,
            (0xDC00 + (code - 0x10000) % 0x400) as u16,
        ]
    }
}

/// The UTF-16 code units of a text.
pub open spec fn utf16_text(text: Seq<char>) -> Seq<u16>
    decreases text.len(),
{
    if text.len() == 0 {
        Seq::empty()
    } else {
        utf16_text(text.drop_last()) + utf16_of_char(text.last())
    }
}

/// The name of the marker as the operating system takes it: in UTF-16, with
/// a zero at the end.
pub fn wide_name(name: &str) -> (wide: Vec<u16>)
    ensures
        wide@ == utf16_text(name@).push(0),
{
    let mut wide: Vec<u16> = Vec::new();
    let len: usize = name.unicode_len();
    let mut i: usize = 0;
    assert(name@.subrange(0, 0) =~= Seq::<char>::empty());
    while i < len
        invariant
            i <= len,
            len == name@.len(),
            wide@ == utf16_text(name@.subrange(0, i as int)),
        decreases len - i,
    {
        let c: char = name.get_char(i);
        let code: u32 = c as u32;
        let ghost before = wide@;
        if code < 0x10000 {
            wide.push(code as u16);
        } else {
            let offset: u32 = code - 0x10000;
            wide.push((0xD800 + offset / 0x400) as u16);
            wide.push((0xDC00 + offset % 0x400) as u16);
        }
        proof {
            let upto = name@.subrange(0, i + 1);
            assert(upto.drop_last() =~= name@.subrange(0, i as int));
            assert(upto.last() == c);
            assert(wide@ =~= before + utf16_of_char(c));
        }
        i = i + 1;
    }
    assert(name@.subrange(0, len as int) =~= name@);
    wide.push(0);
    wide
}

} // verus!
