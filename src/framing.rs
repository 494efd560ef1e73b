use vstd::prelude::*;
use crate::scratch::push_bytes;
use vstd::string::StringSliceAdditionalSpecFns;

verus! {

/// ASCII code of the line feed.
pub const NEWLINE: u8 = 10;

/// The bytes handed to a child's standard input for the text `b`: the text
/// itself when it already ends with a line feed, else the text and one line
/// feed.
pub open spec fn framed(b: Seq<u8>) -> Seq<u8> {
    if b.len() > 0 && b.last() == NEWLINE {
        b
    } else {
        b.push(NEWLINE)
    }
}

/// Frames input text for a child's standard input.
pub fn frame_input(input: &str) -> (r: Vec<u8>)
    ensures
        r@ == framed(input.spec_bytes()),
{
    let mut buf: Vec<u8> = Vec::new();
    push_bytes(&mut buf, input.as_bytes());
    let n = buf.len();
    if n == 0 || buf[n - 1] != NEWLINE {
        buf.push(NEWLINE);
    }
    buf
}

/// Framed input always ends with exactly the line feeds it needs: one is
/// added only when the text lacks a final one, never a second, and framing
/// twice changes nothing.
pub proof fn lemma_framing_ends_once(b: Seq<u8>)
    ensures
        framed(b).len() > 0,
        framed(b).last() == NEWLINE,
        framed(b).drop_last() == (if b.len() > 0 && b.last() == NEWLINE { b.drop_last() } else { b }),
        framed(framed(b)) == framed(b),
{
    if !(b.len() > 0 && b.last() == NEWLINE) {
        assert(b.push(NEWLINE).drop_last() == b);
    }
}

} // verus!
