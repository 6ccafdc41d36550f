//! Decoding of measured samples.
//!
//! A device reports the outcome of one shot as an integer whose binary
//! digits are the measured values of the qubits, the lowest digit for the
//! qubit with index 0.

use crate::registers::RegisterMap;
use vstd::arithmetic::div_mod::{lemma_basic_div, lemma_div_denominator, lemma_mod_breakdown, lemma_small_mod};
use vstd::arithmetic::power2::{lemma_pow2_pos, lemma_pow2_unfold, pow2};
use vstd::prelude::*;

verus! {

/// The value that a sample holds for the qubit with the given index.
pub open spec fn measured_bit(sample: u32, qubit: nat) -> bool {
    (sample as nat / pow2(qubit)) % 2 == 1
}

/// The values that a sample holds for the qubits with the indices below
/// `number_qubits`, in the order of the indices.
pub open spec fn sample_bits(sample: u32, number_qubits: nat) -> Seq<bool> {
    Seq::new(number_qubits, |qubit: int| measured_bit(sample, qubit as nat))
}

/// The number whose binary digits are the given values, the lowest first.
pub open spec fn encoded(bits: Seq<bool>) -> nat
    decreases bits.len(),
{
    if bits.len() == 0 {
        0
    } else {
        encoded(bits.drop_last()) + if bits.last() {
            pow2((bits.len() - 1) as nat)
        } else {
            0
        }
    }
}

/// The values of all samples of a result, in the order in which the result
/// lists them.
pub open spec fn decoded_shots(samples: Seq<Seq<u32>>, number_qubits: nat) -> Seq<Seq<bool>> {
    samples.flatten().map_values(|sample: u32| sample_bits(sample, number_qubits))
}

/// The samples of a result as sequences.
pub open spec fn samples_view(result: Seq<Vec<u32>>) -> Seq<Seq<u32>> {
    Seq::new(result.len(), |i: int| result[i]@)
}

/// Decodes one sample into the values of the qubits of a device.
pub fn decode_sample(sample: u32, number_qubits: usize) -> (bits: Vec<bool>)
    ensures
        bits@ == sample_bits(sample, number_qubits as nat),
{
    let mut bits: Vec<bool> = Vec::new();
    let mut rest: u32 = sample;
    let mut qubit: usize = 0;
    proof {
        assert(pow2(0) == 1) by {
            vstd::arithmetic::power2::lemma2_to64();
        }
    }
    while qubit < number_qubits
        invariant
            0 <= qubit <= number_qubits,
            rest as nat == sample as nat / pow2(qubit as nat),
            bits@ == sample_bits(sample, qubit as nat),
        decreases number_qubits - qubit,
    {
        let bit: bool = rest % 2 == 1;
        bits.push(bit);
        proof {
            lemma_pow2_pos(qubit as nat);
            lemma_pow2_unfold((qubit + 1) as nat);
            lemma_div_denominator(sample as int, pow2(qubit as nat) as int, 2);
        }
        rest = rest / 2;
        qubit += 1;
    }
    bits
}

/// Decodes the samples of a result and appends them, in their order, to the
/// register of the given name. A map without such a register stays as it is.
pub fn record_samples(
    registers: &mut RegisterMap<bool>,
    readout: &str,
    result: &Vec<Vec<u32>>,
    number_qubits: usize,
)
    ensures
        final(registers)@ == if old(registers)@.contains_key(readout@) {
            old(registers)@.insert(
                readout@,
                old(registers)@[readout@] + decoded_shots(samples_view(result@), number_qubits as nat),
            )
        } else {
            old(registers)@
        },
{
    if !registers.contains_key(readout) {
        return ;
    }
    let ghost held = registers@[readout@];
    let ghost samples = samples_view(result@);
    let mut i: usize = 0;
    while i < result.len()
        invariant
            0 <= i <= result@.len(),
            samples == samples_view(result@),
            held == old(registers)@[readout@],
            old(registers)@.contains_key(readout@),
            registers@ == old(registers)@.insert(
                readout@,
                held + decoded_shots(samples.take(i as int), number_qubits as nat),
            ),
        decreases result@.len() - i,
    {
        let shot = &result[i];
        let ghost front = samples.take(i as int).flatten();
        let mut j: usize = 0;
        while j < shot.len()
            invariant
                0 <= j <= shot@.len(),
                0 <= i < result@.len(),
                shot@ == samples[i as int],
                front == samples.take(i as int).flatten(),
                old(registers)@.contains_key(readout@),
                held == old(registers)@[readout@],
                registers@ == old(registers)@.insert(
                    readout@,
                    held + (front + shot@.take(j as int)).map_values(
                        |sample: u32| sample_bits(sample, number_qubits as nat),
                    ),
                ),
            decreases shot@.len() - j,
        {
            let bits = decode_sample(shot[j], number_qubits);
            let ghost before = front + shot@.take(j as int);
            registers.push(readout, bits);
            proof {
                let decode = |sample: u32| sample_bits(sample, number_qubits as nat);
                assert(shot@.take(j + 1) =~= shot@.take(j as int).push(shot@[j as int]));
                assert(before.push(shot@[j as int]).map_values(decode) =~= before.map_values(
                    decode,
                ).push(bits@));
            }
            j += 1;
        }
        proof {
            assert(shot@.take(shot@.len() as int) =~= shot@);
            assert(samples.take(i + 1) =~= samples.take(i as int).push(shot@));
            samples.take(i as int).lemma_flatten_push(shot@);
        }
        i += 1;
    }
    proof {
        assert(samples.take(result@.len() as int) =~= samples);
    }
}

/// Decoding a sample for `number_qubits` qubits and reading the values as
/// binary digits again gives the sample, if it is below 2 to the power of
/// `number_qubits`; in general it gives the remainder of the sample by that
/// power.
pub proof fn law_decoding_keeps_sample(sample: u32, number_qubits: nat)
    ensures
        encoded(sample_bits(sample, number_qubits)) == sample as nat % pow2(number_qubits),
        (sample as nat) < pow2(number_qubits) ==> encoded(sample_bits(sample, number_qubits))
            == sample as nat,
    decreases number_qubits,
{
    lemma_pow2_pos(number_qubits);
    if number_qubits == 0 {
        assert(pow2(0) == 1) by {
            vstd::arithmetic::power2::lemma2_to64();
        }
    } else {
        let fewer = (number_qubits - 1) as nat;
        law_decoding_keeps_sample(sample, fewer);
        lemma_pow2_pos(fewer);
        lemma_pow2_unfold(number_qubits);
        lemma_mod_breakdown(sample as int, pow2(fewer) as int, 2);
        assert(sample_bits(sample, number_qubits).drop_last() =~= sample_bits(sample, fewer));
    }
    if (sample as nat) < pow2(number_qubits) {
        lemma_small_mod(sample as nat, pow2(number_qubits));
    }
}

/// Each decoded sample holds one value for each qubit, and a qubit beyond
/// the 32 digits of a sample reads as `false`.
pub proof fn law_decoded_shape(sample: u32, number_qubits: nat, qubit: nat)
    requires
        qubit < number_qubits,
    ensures
        sample_bits(sample, number_qubits).len() == number_qubits,
        sample_bits(sample, number_qubits)[qubit as int] == measured_bit(sample, qubit),
        qubit >= 32 ==> !measured_bit(sample, qubit),
{
    if qubit >= 32 {
        vstd::arithmetic::power2::lemma2_to64();
        if qubit > 32 {
            vstd::arithmetic::power2::lemma_pow2_strictly_increases(32, qubit);
        }
        lemma_basic_div(sample as int, pow2(qubit) as int);
    }
}

} // verus!
