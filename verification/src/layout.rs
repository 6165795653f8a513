//! The bytes of marshalled operands as a caller in another language reads
//! them: every operand takes twelve bytes, whatever its kind, and the
//! operands of an instruction lie one behind the other.
//!
//! In the twelve bytes of one operand the first is the kind's discriminant,
//! the next three are 0, and the last eight are the payload.

use vstd::prelude::*;
use crate::codec::{kind_of, lemma_codec_injective, lemma_codec_round_trip, payload_of, CArgument};
use crate::operand::Argument;

verus! {

/// Number of bytes that one marshalled operand takes.
pub const ARGUMENT_STRIDE: usize = 12;

/// Where the payload begins among the bytes of one marshalled operand: the
/// discriminant takes one byte, and the payload starts at the next multiple
/// of four.
pub const PAYLOAD_OFFSET: usize = 4;

/// The twelve bytes of one marshalled operand.
pub open spec fn image_of(arg: Argument) -> Seq<u8> {
    seq![kind_of(arg).spec_code(), 0u8, 0u8, 0u8] + payload_of(arg)
}

/// The bytes of a run of marshalled operands: byte `i` is byte `i % 12` of
/// operand `i / 12`.
pub open spec fn array_image_of(args: Seq<Argument>) -> Seq<u8> {
    Seq::new(
        (ARGUMENT_STRIDE * args.len()) as nat,
        |i: int| image_of(args[i / ARGUMENT_STRIDE as int])[i % ARGUMENT_STRIDE as int],
    )
}

/// The operands that a run of marshalled operands stands for.
pub open spec fn operands_of(marshalled: Seq<CArgument>) -> Seq<Argument> {
    marshalled.map_values(|c: CArgument| c@)
}

/// Every operand takes the same number of bytes, whatever its kind: the
/// discriminant in the first, the payload from `PAYLOAD_OFFSET` on.
pub proof fn lemma_stride_is_constant(arg: Argument)
    ensures
        image_of(arg).len() == ARGUMENT_STRIDE,
        image_of(arg)[0] == kind_of(arg).spec_code(),
        image_of(arg).subrange(PAYLOAD_OFFSET as int, ARGUMENT_STRIDE as int) == payload_of(arg),
{
    lemma_codec_round_trip(arg);
    assert(image_of(arg).subrange(PAYLOAD_OFFSET as int, ARGUMENT_STRIDE as int) =~= payload_of(
        arg,
    ));
}

/// In the bytes of a run of operands, each operand lies at its index times
/// the stride, and the run takes the stride times its length.
pub proof fn lemma_array_is_indexable(args: Seq<Argument>, index: int)
    requires
        0 <= index < args.len(),
    ensures
        array_image_of(args).len() == ARGUMENT_STRIDE * args.len(),
        array_image_of(args).subrange(
            ARGUMENT_STRIDE * index,
            ARGUMENT_STRIDE * index + ARGUMENT_STRIDE,
        ) == image_of(args[index]),
{
    lemma_stride_is_constant(args[index]);
    let stride = ARGUMENT_STRIDE as int;
    let part = array_image_of(args).subrange(stride * index, stride * index + stride);
    assert forall|j: int| 0 <= j < stride implies part[j] == image_of(args[index])[j] by {
        let i = stride * index + j;
        assert(i / stride == index && i % stride == j) by (nonlinear_arith)
            requires
                i == stride * index + j,
                0 <= j < stride,
                stride == 12,
        ;
    }
    assert(part =~= image_of(args[index]));
}

/// The bytes of an operand say which operand it is.
pub proof fn lemma_image_is_lossless(a: Argument, b: Argument)
    requires
        image_of(a) == image_of(b),
    ensures
        a == b,
{
    lemma_stride_is_constant(a);
    lemma_stride_is_constant(b);
    kind_of(a).lemma_code_round_trip();
    kind_of(b).lemma_code_round_trip();
    lemma_codec_injective(a, b);
}

impl CArgument {
    /// The twelve bytes of this marshalled operand.
    pub fn image(&self) -> (bytes: [u8; 12])
        ensures
            bytes@ == image_of(self@),
    {
        let kind = self.kind().code();
        let p = self.value().bytes;
        let bytes = [kind, 0, 0, 0, p[0], p[1], p[2], p[3], p[4], p[5], p[6], p[7]];
        proof {
            lemma_codec_round_trip(self@);
            assert(bytes@ =~= image_of(self@));
        }
        bytes
    }
}

/// Marshals the operands of an instruction, one for one and in their order.
pub fn marshal_arguments(args: &[Argument]) -> (marshalled: Vec<CArgument>)
    ensures
        marshalled.len() == args.len(),
        operands_of(marshalled@) == args@,
{
    let mut marshalled: Vec<CArgument> = Vec::new();
    let mut i: usize = 0;
    while i < args.len()
        invariant
            0 <= i <= args.len(),
            marshalled.len() == i,
            forall|j: int| 0 <= j < i ==> (#[trigger] marshalled@[j])@ == args@[j],
        decreases args.len() - i,
    {
        marshalled.push(CArgument::from(args[i]));
        i += 1;
    }
    assert(operands_of(marshalled@) =~= args@);
    marshalled
}

/// The bytes of a run of marshalled operands, as they lie in memory.
pub fn array_image(marshalled: &[CArgument]) -> (bytes: Vec<u8>)
    requires
        ARGUMENT_STRIDE * marshalled.len() <= usize::MAX,
    ensures
        bytes.len() == ARGUMENT_STRIDE * marshalled.len(),
        bytes@ == array_image_of(operands_of(marshalled@)),
{
    let ghost args = operands_of(marshalled@);
    let mut bytes: Vec<u8> = Vec::new();
    let mut i: usize = 0;
    while i < marshalled.len()
        invariant
            0 <= i <= marshalled.len(),
            args == operands_of(marshalled@),
            bytes@ == array_image_of(args.take(i as int)),
        decreases marshalled.len() - i,
    {
        let image = marshalled[i].image();
        let ghost before = bytes@;
        let mut j: usize = 0;
        while j < ARGUMENT_STRIDE
            invariant
                0 <= j <= ARGUMENT_STRIDE,
                image@ == image_of(args[i as int]),
                bytes@ == before + image@.take(j as int),
            decreases ARGUMENT_STRIDE - j,
        {
            bytes.push(image[j]);
            j += 1;
            assert(bytes@ =~= before + image@.take(j as int));
        }
        proof {
            lemma_stride_is_constant(args[i as int]);
            let next = args.take(i as int + 1);
            let stride = ARGUMENT_STRIDE as int;
            assert forall|k: int| 0 <= k < bytes@.len() implies bytes@[k] == array_image_of(
                next,
            )[k] by {
                if k < stride * i {
                    assert(k / stride < i) by (nonlinear_arith)
                        requires
                            0 <= k < stride * i,
                            stride == 12,
                    ;
                    assert(bytes@[k] == array_image_of(args.take(i as int))[k]);
                } else {
                    let r = k - stride * i;
                    assert(k / stride == i && k % stride == r) by (nonlinear_arith)
                        requires
                            k == stride * i + r,
                            0 <= r < stride,
                            stride == 12,
                    ;
                }
            }
            assert(bytes@ =~= array_image_of(next));
        }
        i += 1;
    }
    assert(args.take(marshalled.len() as int) =~= args);
    bytes
}

} // verus!
