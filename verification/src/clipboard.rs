//! Copying to the clipboard of the terminal.
use base64::Engine;
use vstd::prelude::*;
use vstd::string::*;
use crate::text::{bytes, concat3};

verus! {

/// The characters of the standard base64 alphabet, and the one that pads.
pub open spec fn base64_char(c: char) -> bool {
    ||| 'A' <= c <= 'Z'
    ||| 'a' <= c <= 'z'
    ||| '0' <= c <= '9'
    ||| c == '+'
    ||| c == '/'
    ||| c == '='
}

/// How many characters the base64 text of so many bytes has.
pub open spec fn base64_len(n: nat) -> nat {
    (n + 2) / 3 * 4
}

/// Bytes as text in standard base64, padded.
pub uninterp spec fn base64_text(data: Seq<u8>) -> Seq<char>;

/// Calls `base64`'s `STANDARD.encode`, which panics where the text would be too long for memory.
/// Four characters stand for every three bytes or part of them, all of them from the alphabet or
/// padding; which ones is left to the name of the result.
#[verifier::external_body]
pub(crate) fn encode_base64(data: &[u8]) -> (r: String)
    requires
        base64_len(data@.len()) <= isize::MAX,
    ensures
        r@ == base64_text(data@),
        r@.len() == base64_len(data@.len()),
        forall|i: int| 0 <= i < r@.len() ==> base64_char(#[trigger] r@[i]),
{
    base64::engine::general_purpose::STANDARD.encode(data)
}

/// The control sequence by which a terminal is told to copy.
pub open spec fn copy_command(payload: Seq<char>) -> Seq<char> {
    "\x1b]52;c;"@ + payload + "\x07"@
}

/// Whether a text is short enough to be copied.
pub open spec fn copyable(text: Seq<char>) -> bool {
    base64_len(bytes(text).len()) <= isize::MAX
}

/// Whether a text is short enough to be copied.
pub fn can_copy(text: &str) -> (r: bool)
    ensures
        r == copyable(text@),
{
    let n: usize = text.as_bytes().len();
    let whole: usize = n / 3;
    let groups: usize = if n % 3 == 0 {
        whole
    } else {
        whole + 1
    };
    proof {
        assert(groups == (n + 2) / 3);
    }
    groups <= (isize::MAX as usize) / 4
}

/// The control sequence around an encoded text.
pub fn wrap_payload(payload: &str) -> (r: String)
    ensures
        r@ == copy_command(payload@),
{
    concat3("\x1b]52;c;", payload, "\x07")
}

/// The control sequence that copies a text. It begins with its one escape character and ends with
/// its one bell character, whatever the text.
pub fn copy_sequence(text: &str) -> (r: String)
    requires
        copyable(text@),
    ensures
        r@ == copy_command(base64_text(bytes(text@))),
        r@.len() == 8 + base64_len(bytes(text@).len()),
        r@[0] == '\x1b',
        r@.last() == '\x07',
        forall|i: int| 0 < i < r@.len() ==> r@[i] != '\x1b',
        forall|i: int| 0 <= i < r@.len() - 1 ==> r@[i] != '\x07',
{
    let payload = encode_base64(text.as_bytes());
    let out = wrap_payload(payload.as_str());
    proof {
        reveal_strlit("\x1b]52;c;");
        reveal_strlit("\x07");
        let p = payload@;
        assert forall|i: int| 0 < i < out@.len() implies out@[i] != '\x1b' by {
            if 7 <= i < 7 + p.len() {
                assert(out@[i] == p[i - 7]);
                assert(base64_char(p[i - 7]));
            }
        }
        assert forall|i: int| 0 <= i < out@.len() - 1 implies out@[i] != '\x07' by {
            if 7 <= i < 7 + p.len() {
                assert(out@[i] == p[i - 7]);
                assert(base64_char(p[i - 7]));
            }
        }
    }
    out
}

} // verus!
