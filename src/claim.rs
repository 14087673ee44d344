//! The public statement that a proof attests to, and the padded trace height that a proof
//! declares. Field elements are held as their canonical `u64` values; a digest as its five.

use vstd::arithmetic::power2::lemma_pow2_strictly_increases;
use vstd::arithmetic::power2::lemma_pow2_unfold;
use vstd::arithmetic::power2::lemma2_to64;
use vstd::arithmetic::power2::pow2;
use vstd::prelude::*;

use crate::circuit::FIELD_MODULUS;

verus! {

/// The version of the instruction set architecture together with the proof system. It changes
/// whenever either of the two changes, so that a proof about a program under an earlier meaning
/// is not taken for one under the current meaning.
pub const CURRENT_VERSION: u32 = 0;

/// A hash digest: five base-field elements.
#[derive(Debug, Clone, Copy, PartialEq, Eq, Hash)]
pub struct Digest {
    pub values: [u64; 5],
}

/// Every value is a canonical base-field element: below the field modulus.
pub open spec fn field_elements(values: Seq<u64>) -> bool {
    forall|i: int| 0 <= i < values.len() ==> #[trigger] values[i] < FIELD_MODULUS
}

impl Digest {
    /// The digest's five values are base-field elements.
    pub open spec fn wf(&self) -> bool {
        field_elements(self.values@)
    }
}

/// The public information of a computation: the digest of the program that ran, the version
/// the digest is about, and the public input and output.
#[derive(Debug, Clone, PartialEq, Eq, Hash)]
pub struct Claim {
    pub program_digest: Digest,
    pub version: u32,
    pub input: Vec<u64>,
    pub output: Vec<u64>,
}

impl Claim {
    /// The digest, the input and the output hold base-field elements.
    pub open spec fn wf(&self) -> bool {
        self.program_digest.wf() && field_elements(self.input@) && field_elements(self.output@)
    }

    /// A claim about the program with digest `program_digest`, at the current version, with no
    /// input and no output.
    pub fn new(program_digest: Digest) -> (r: Self)
        requires
            program_digest.wf(),
        ensures
            r.wf(),
            r.program_digest == program_digest,
            r.version == CURRENT_VERSION,
            r.input@.len() == 0,
            r.output@.len() == 0,
    {
        Claim { program_digest, version: CURRENT_VERSION, input: Vec::new(), output: Vec::new() }
    }

    /// The claim with public input `input`.
    pub fn with_input(self, input: Vec<u64>) -> (r: Self)
        requires
            self.wf(),
            field_elements(input@),
        ensures
            r.wf(),
            r.input@ == input@,
            r.program_digest == self.program_digest,
            r.version == self.version,
            r.output@ == self.output@,
    {
        Claim { input, ..self }
    }

    /// The claim with public output `output`.
    pub fn with_output(self, output: Vec<u64>) -> (r: Self)
        requires
            self.wf(),
            field_elements(output@),
        ensures
            r.wf(),
            r.output@ == output@,
            r.program_digest == self.program_digest,
            r.version == self.version,
            r.input@ == self.input@,
    {
        Claim { output, ..self }
    }

    /// The claim about version `version`.
    pub fn about_version(self, version: u32) -> (r: Self)
        requires
            self.wf(),
        ensures
            r.wf(),
            r.version == version,
            r.program_digest == self.program_digest,
            r.input@ == self.input@,
            r.output@ == self.output@,
    {
        Claim { version, ..self }
    }
}

/// Why a proof's padded height cannot be read.
#[derive(Debug, Clone, Copy, PartialEq, Eq, Hash, Structural)]
pub enum ProofStreamError {
    /// The proof declares no log2 padded height.
    NoLog2PaddedHeight,
    /// The proof declares more than one log2 padded height.
    TooManyLog2PaddedHeights,
    /// The declared height, two to the power of the log2 padded height, does not fit a `usize`.
    Log2PaddedHeightTooLarge,
}

/// `2^exponent`, if it fits a `usize`.
fn checked_pow2(exponent: u32) -> (r: Option<usize>)
    ensures
        match r {
            Some(v) => v == pow2(exponent as nat),
            None => pow2(exponent as nat) > usize::MAX,
        },
{
    proof {
        lemma2_to64();
    }
    let mut v: usize = 1;
    let mut i: u32 = 0;
    while i < exponent
        invariant
            i <= exponent,
            v == pow2(i as nat),
        decreases exponent - i,
    {
        proof {
            lemma_pow2_unfold((i + 1) as nat);
        }
        if v > usize::MAX / 2 {
            proof {
                if i + 1 < exponent {
                    lemma_pow2_strictly_increases((i + 1) as nat, exponent as nat);
                }
            }
            return None;
        }
        v = v * 2;
        i = i + 1;
    }
    Some(v)
}

/// The padded height of the trace that a proof is about, from the log2 padded heights that its
/// items declare: two to the power of the one declared height. No declared height, or more than
/// one, is an error, as is a height that does not fit a `usize`.
pub fn padded_height_from_log2_heights(log2_heights: &Vec<u32>) -> (r: Result<usize, ProofStreamError>)
    ensures
        log2_heights@.len() == 0 <==> r == Err::<usize, ProofStreamError>(
            ProofStreamError::NoLog2PaddedHeight,
        ),
        log2_heights@.len() > 1 <==> r == Err::<usize, ProofStreamError>(
            ProofStreamError::TooManyLog2PaddedHeights,
        ),
        log2_heights@.len() == 1 ==> match r {
            Ok(height) => height == pow2(log2_heights@[0] as nat),
            Err(e) => e == ProofStreamError::Log2PaddedHeightTooLarge && pow2(
                log2_heights@[0] as nat,
            ) > usize::MAX,
        },
{
    if log2_heights.len() == 0 {
        return Err(ProofStreamError::NoLog2PaddedHeight);
    }
    if log2_heights.len() > 1 {
        return Err(ProofStreamError::TooManyLog2PaddedHeights);
    }
    match checked_pow2(log2_heights[0]) {
        Some(height) => Ok(height),
        None => Err(ProofStreamError::Log2PaddedHeightTooLarge),
    }
}

} // verus!
