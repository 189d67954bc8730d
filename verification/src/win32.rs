//! The rules around the native shell of Windows: how a path is laid out for
//! it, and how its answer is read.

use crate::error::{os_failure, outcome_view, IoFailure, IoFailureView, IoKind, OpenError, OpenErrorView};
use crate::text::chars_of;
use vstd::prelude::*;

verus! {

/// The UTF-16 code units of one character: itself where it fits in one unit,
/// else a high and a low surrogate.
pub open spec fn utf16_units(c: char) -> Seq<u16> {
    let v = c as u32;
    if v < 0x10000 {
        seq![v as u16]
    } else {
        seq![
            (0xD800 + (v - 0x10000) / 0x400) as u16,
            (0xDC00 + (v - 0x10000) % 0x400) as u16,
        ]
    }
}

/// The UTF-16 encoding of a text.
pub open spec fn utf16(text: Seq<char>) -> Seq<u16>
    decreases text.len(),
{
    if text.len() == 0 {
        Seq::empty()
    } else {
        utf16(text.drop_last()) + utf16_units(text.last())
    }
}

/// The failure that rejects a path with a NUL in it.
pub open spec fn nul_failure() -> IoFailureView {
    IoFailureView { kind: IoKind::InvalidInput, code: None, message: "path contains NUL byte(s)"@ }
}

/// The buffer that the native shell is handed for `path`: its UTF-16
/// encoding with a terminating zero. A path that holds a NUL is rejected.
pub open spec fn wide_path(path: Seq<char>) -> Result<Seq<u16>, IoFailureView> {
    if path.contains('\0') {
        Err(nul_failure())
    } else {
        Ok(utf16(path).push(0u16))
    }
}

/// What the shell's answer to an "open" request means. The shell answers
/// with a number; above 32 it has opened the path, and at 32 or below the
/// request failed with the error that the operating system recorded last.
pub open spec fn shell_outcome(instance: isize, last_error: i32) -> Result<(), OpenErrorView> {
    if instance > 32 {
        Ok(())
    } else {
        Err(OpenErrorView::Io(os_failure(last_error)))
    }
}

/// The units of a character hold a zero exactly where the character is NUL.
pub proof fn lemma_units_zero(c: char)
    ensures
        utf16_units(c).contains(0u16) <==> c == '\0',
{
    let units = utf16_units(c);
    let v = c as u32;
    assert(v <= 0x10FFFF);
    if c == '\0' {
        assert(units[0] == 0u16);
    }
    if units.contains(0u16) {
        let k = choose|k: int| 0 <= k < units.len() && units[k] == 0u16;
        if v < 0x10000 {
            assert(units[0] == v as u16);
            assert(v == 0u32);
            assert(c == '\0');
        } else {
            assert(0 <= (v - 0x10000) / 0x400 <= 0x3FF);
            assert(0 <= (v - 0x10000) % 0x400 <= 0x3FF);
            assert(units[0] >= 0xD800u16);
            assert(units[1] >= 0xDC00u16);
        }
    }
}

/// The encoding of a text holds a zero unit exactly where the text holds a
/// NUL.
pub proof fn lemma_utf16_zero(text: Seq<char>)
    ensures
        utf16(text).contains(0u16) <==> text.contains('\0'),
    decreases text.len(),
{
    if text.len() > 0 {
        let front = text.drop_last();
        let units = utf16_units(text.last());
        lemma_utf16_zero(front);
        lemma_units_zero(text.last());
        if utf16(text).contains(0u16) {
            let k = choose|k: int| 0 <= k < utf16(text).len() && utf16(text)[k] == 0u16;
            if k < utf16(front).len() {
                assert(utf16(front)[k] == 0u16);
                let j = choose|j: int| 0 <= j < front.len() && front[j] == '\0';
                assert(text[j] == '\0');
            } else {
                assert(units[k - utf16(front).len()] == 0u16);
                assert(text[text.len() - 1] == '\0');
            }
        }
        if text.contains('\0') {
            let j = choose|j: int| 0 <= j < text.len() && text[j] == '\0';
            if j < front.len() {
                assert(front[j] == '\0');
                let k = choose|k: int| 0 <= k < utf16(front).len() && utf16(front)[k] == 0u16;
                assert(utf16(text)[k] == 0u16);
            } else {
                let k = choose|k: int| 0 <= k < units.len() && units[k] == 0u16;
                assert(utf16(text)[utf16(front).len() + k] == 0u16);
            }
        }
    }
}

/// A buffer that `wide_path` accepts ends in its only zero.
pub proof fn lemma_wide_path_terminated(path: Seq<char>)
    requires
        wide_path(path) is Ok,
    ensures
        ({
            let wide = wide_path(path)->Ok_0;
            &&& wide.len() > 0
            &&& wide.last() == 0u16
            &&& forall|i: int| 0 <= i < wide.len() - 1 ==> wide[i] != 0u16
        }),
{
    lemma_utf16_zero(path);
    let wide = wide_path(path)->Ok_0;
    assert forall|i: int| 0 <= i < wide.len() - 1 implies wide[i] != 0u16 by {
        assert(wide[i] == utf16(path)[i]);
    }
}

/// Encodes a text as UTF-16.
pub fn encode_wide(text: &str) -> (wide: Vec<u16>)
    ensures
        wide@ == utf16(text@),
{
    let chars = chars_of(text);
    let mut wide: Vec<u16> = Vec::new();
    let mut i: usize = 0;
    while i < chars.len()
        invariant
            i <= chars.len(),
            chars@ == text@,
            wide@ == utf16(chars@.take(i as int)),
        decreases chars.len() - i,
    {
        let v: u32 = chars[i] as u32;
        proof {
            let next = chars@.take(i + 1);
            assert(next.drop_last() =~= chars@.take(i as int));
            assert(next.last() == chars@[i as int]);
        }
        if v < 0x10000 {
            wide.push(v as u16);
        } else {
            let rest: u32 = v - 0x10000;
            wide.push((0xD800 + rest / 0x400) as u16);
            wide.push((0xDC00 + rest % 0x400) as u16);
        }
        assert(wide@ =~= utf16(chars@.take(i as int)) + utf16_units(chars@[i as int]));
        i += 1;
    }
    assert(chars@.take(chars.len() as int) =~= chars@);
    wide
}

/// Lays `path` out for the native shell: its UTF-16 encoding, followed by a
/// zero. A path that holds a NUL cannot be handed over and is rejected as
/// invalid input.
pub fn convert_path(path: &str) -> (r: Result<Vec<u16>, IoFailure>)
    ensures
        match r {
            Ok(wide) => wide_path(path@) == Ok::<Seq<u16>, IoFailureView>(wide@),
            Err(failure) => wide_path(path@) == Err::<Seq<u16>, IoFailureView>(failure@),
        },
{
    let mut wide = encode_wide(path);
    let mut i: usize = 0;
    while i < wide.len()
        invariant
            i <= wide.len(),
            wide@ == utf16(path@),
            forall|k: int| 0 <= k < i ==> wide@[k] != 0u16,
        decreases wide.len() - i,
    {
        if wide[i] == 0 {
            proof {
                assert(utf16(path@).contains(0u16));
                lemma_utf16_zero(path@);
            }
            return Err(IoFailure::new(IoKind::InvalidInput, "path contains NUL byte(s)"));
        }
        i += 1;
    }
    proof {
        lemma_utf16_zero(path@);
    }
    wide.push(0);
    Ok(wide)
}

/// Reads the answer of the native shell to an "open" request. `last_error`
/// is the error code that the operating system held right after the call.
pub fn open_helper(instance: isize, last_error: i32) -> (r: Result<(), OpenError>)
    ensures
        outcome_view(r) == shell_outcome(instance, last_error),
{
    if instance > 32 {
        Ok(())
    } else {
        Err(OpenError::Io(IoFailure::from_os_code(last_error)))
    }
}

} // verus!
