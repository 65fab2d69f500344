//! Decoding a whole byte stream in fixed two-byte units, in stream order.

use vstd::prelude::*;

use crate::encoding::EncInstruction;
use crate::encoding::MOV_OPCODE;
use crate::instruction::decode;
use crate::instruction::spec_decode;
use crate::instruction::spec_render;

verus! {

/// The encoded instruction formed by the stream's `k`-th two-byte chunk.
pub open spec fn enc_at(bytes: Seq<u8>, k: int) -> EncInstruction
    recommends
        0 <= k,
        2 * k + 1 < bytes.len(),
{
    EncInstruction { opcode_dw: bytes[2 * k], mod_reg_rm: bytes[2 * k + 1] }
}

/// The text line one encoded instruction decodes and renders to.
pub open spec fn spec_line(i: EncInstruction) -> Seq<char> {
    spec_render(spec_decode(i))
}

/// Decodes and renders every two-byte chunk of `bytes` in order, one text
/// line per instruction.
///
/// A short trailing chunk (a final odd byte) is clean end-of-stream: it
/// yields no line. The first chunk whose opcode is outside the supported
/// family stops the run at once: the returned lines cover exactly the chunks
/// before it, and its opcode comes back so the caller can report the fatal
/// fault. When every chunk decodes, the second component is `None`.
pub fn decode_stream(bytes: &[u8]) -> (r: (Vec<String>, Option<u8>))
    ensures
        forall|k: int|
            0 <= k < r.0@.len() ==> #[trigger] r.0@[k]@ == spec_line(enc_at(bytes@, k))
                && enc_at(bytes@, k).spec_opcode() == MOV_OPCODE,
        match r.1 {
            None => r.0@.len() == bytes@.len() / 2,
            Some(op) => r.0@.len() < bytes@.len() / 2
                && op == enc_at(bytes@, r.0@.len() as int).spec_opcode()
                && op != MOV_OPCODE,
        },
{
    let mut lines: Vec<String> = Vec::new();
    let len: usize = bytes.len();
    let n: usize = len / 2;
    let mut idx: usize = 0;
    while idx < n
        invariant
            idx <= n,
            len == bytes@.len(),
            n == len / 2,
            lines@.len() == idx,
            forall|k: int|
                0 <= k < idx ==> #[trigger] lines@[k]@ == spec_line(enc_at(bytes@, k))
                    && enc_at(bytes@, k).spec_opcode() == MOV_OPCODE,
        decreases n - idx,
    {
        assert(2 * idx + 1 < bytes@.len());
        let inst = EncInstruction { opcode_dw: bytes[2 * idx], mod_reg_rm: bytes[2 * idx + 1] };
        let op = inst.opcode();
        if op != MOV_OPCODE {
            return (lines, Some(op));
        }
        let line = decode(inst).render();
        proof {
            assert(inst == enc_at(bytes@, idx as int));
            assert(line@ == spec_line(enc_at(bytes@, idx as int)));
        }
        lines.push(line);
        idx = idx + 1;
    }
    (lines, None)
}

/// Decoding is a pure function of the two instruction bytes: in a stream
/// whose lines each render their own chunk, two positions holding identical
/// byte pairs carry identical lines, independent of position and of what
/// precedes them.
pub proof fn lemma_position_independent(bytes: Seq<u8>, lines: Seq<Seq<char>>, j: int, k: int)
    requires
        forall|i: int| 0 <= i < lines.len() ==> #[trigger] lines[i] == spec_line(enc_at(bytes, i)),
        0 <= j < lines.len(),
        0 <= k < lines.len(),
        bytes[2 * j] == bytes[2 * k],
        bytes[2 * j + 1] == bytes[2 * k + 1],
    ensures
        lines[j] == lines[k],
{
    assert(enc_at(bytes, j) == enc_at(bytes, k));
}

} // verus!
