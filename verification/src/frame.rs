//! The fatal error frame sent to a client when no catalog connection can
//! be established at accept time: the connection gets this one frame and
//! is closed, while the acceptor keeps serving.

use vstd::prelude::*;
use vstd::string::StringSliceAdditionalSpecFns;

verus! {

/// The frame's bytes: an error marker, a zero length placeholder, the
/// FATAL severity, then the message, each text NUL-terminated, and a
/// final NUL closing the frame.
pub open spec fn fatal_frame_spec(msg: Seq<u8>) -> Seq<u8> {
    seq![69u8, 0u8, 0u8, 0u8, 0u8, 70u8, 65u8, 84u8, 65u8, 76u8, 0u8] + msg + seq![0u8, 0u8]
}

/// Build the fatal frame that reports `message` before the connection
/// closes.
pub fn fatal_catalog_frame(message: &str) -> (r: Vec<u8>)
    ensures
        r@ == fatal_frame_spec(message.spec_bytes()),
{
    let mut out: Vec<u8> = Vec::new();
    out.push(69);  // 'E'
    out.push(0);
    out.push(0);
    out.push(0);
    out.push(0);
    out.push(70);  // 'F'
    out.push(65);  // 'A'
    out.push(84);  // 'T'
    out.push(65);  // 'A'
    out.push(76);  // 'L'
    out.push(0);
    let bytes = message.as_bytes();
    let ghost head = out@;
    let mut i: usize = 0;
    while i < bytes.len()
        invariant
            i <= bytes@.len(),
            bytes@ == message.spec_bytes(),
            out@ == head + bytes@.take(i as int),
            head == seq![69u8, 0u8, 0u8, 0u8, 0u8, 70u8, 65u8, 84u8, 65u8, 76u8, 0u8],
        decreases bytes@.len() - i,
    {
        out.push(bytes[i]);
        proof {
            assert(out@ =~= head + bytes@.take(i as int + 1));
        }
        i = i + 1;
    }
    out.push(0);
    out.push(0);
    proof {
        assert(bytes@.take(bytes@.len() as int) =~= bytes@);
        assert(out@ =~= fatal_frame_spec(message.spec_bytes()));
    }
    out
}

} // verus!
