//! The byte transformation the terminal wrapper applies on write: every
//! newline is followed by a large cursor-left move, so that raw-mode output
//! lines always restart at the left edge.
use vstd::prelude::*;

verus! {

/// The bytes injected after each newline: `ESC [ 9 9 9 9 9 9 9 9 D`.
pub open spec fn left_edge_bytes() -> Seq<u8> {
    seq![27u8, 91u8, 57u8, 57u8, 57u8, 57u8, 57u8, 57u8, 57u8, 57u8, 68u8]
}

/// `bs` with every newline byte followed by the cursor-left injection.
pub open spec fn expanded(bs: Seq<u8>) -> Seq<u8>
    decreases bs.len(),
{
    if bs.len() == 0 {
        Seq::empty()
    } else {
        expanded(bs.drop_last()) + (if bs.last() == 10u8 {
            seq![10u8] + left_edge_bytes()
        } else {
            seq![bs.last()]
        })
    }
}

/// Rewrites a chunk of terminal output so every newline is followed by a move
/// to the left edge.
pub fn expand_newlines(buf: &[u8]) -> (r: Vec<u8>)
    ensures
        r@ == expanded(buf@),
{
    let mut out: Vec<u8> = Vec::new();
    let mut i: usize = 0;
    while i < buf.len()
        invariant
            i <= buf@.len(),
            out@ == expanded(buf@.take(i as int)),
        decreases buf@.len() - i,
    {
        let b = buf[i];
        if b == 10 {
            out.push(10);
            out.push(27);
            out.push(91);
            out.push(57);
            out.push(57);
            out.push(57);
            out.push(57);
            out.push(57);
            out.push(57);
            out.push(57);
            out.push(57);
            out.push(68);
        } else {
            out.push(b);
        }
        i += 1;
        proof {
            let t = buf@.take(i as int);
            assert(t.drop_last() =~= buf@.take(i as int - 1));
            assert(t.last() == buf@[i as int - 1]);
            assert(out@ =~= expanded(t));
        }
    }
    proof {
        assert(buf@.take(buf@.len() as int) =~= buf@);
    }
    out
}

} // verus!
