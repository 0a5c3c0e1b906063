use vstd::prelude::*;
use vstd::utf8::encode_utf8;
use crate::address::Address;
use crate::error::MitamaError;

verus! {

/// Identity of the native Ed25519 signature-verification program.
pub open spec fn ed25519_program_bytes() -> Seq<u8> {
    seq![
        3u8, 125, 70, 214, 124, 147, 251, 190, 18, 249, 66, 143, 131, 141, 64, 255, 5, 112, 116,
        73, 39, 244, 138, 100, 252, 202, 112, 68, 128, 0, 0, 0,
    ]
}

pub fn ed25519_program_id() -> (r: Address)
    ensures
        r@ == ed25519_program_bytes(),
{
    let r = Address {
        bytes: [
            3, 125, 70, 214, 124, 147, 251, 190, 18, 249, 66, 143, 131, 141, 64, 255, 5, 112, 116,
            73, 39, 244, 138, 100, 252, 202, 112, 68, 128, 0, 0, 0,
        ],
    };
    assert(r@ =~= ed25519_program_bytes());
    r
}

/// An instruction of the enclosing transaction: the program it targets and its data.
#[derive(Clone, Debug)]
pub struct SignatureInstruction {
    pub program_id: Address,
    pub data: Vec<u8>,
}

/// Little-endian 16-bit field of `data` at `at`.
pub open spec fn le_u16(data: Seq<u8>, at: int) -> int {
    data[at] as int + data[at + 1] as int * 256
}

/// `data` holds `expected` at `start`.
pub open spec fn holds_at(data: Seq<u8>, start: int, expected: Seq<u8>) -> bool {
    start + expected.len() <= data.len() && data.subrange(start, start + expected.len())
        == expected
}

/// The instruction asks the Ed25519 program to check one signature, and that check is
/// over exactly `signature`, `verifier` and `message`.
pub open spec fn ed25519_instruction_matches(
    program_id: Seq<u8>,
    data: Seq<u8>,
    signature: Seq<u8>,
    verifier: Seq<u8>,
    message: Seq<u8>,
) -> bool {
    &&& program_id == ed25519_program_bytes()
    &&& data.len() >= 16
    &&& data[0] == 1
    &&& holds_at(data, le_u16(data, 2), signature)
    &&& holds_at(data, le_u16(data, 6), verifier)
    &&& le_u16(data, 12) == message.len()
    &&& holds_at(data, le_u16(data, 10), message)
}

/// Decimal digits of `n`, in ASCII, most significant first.
pub open spec fn decimal(n: nat) -> Seq<u8>
    decreases n,
{
    if n < 10 {
        seq![(48 + n) as u8]
    } else {
        decimal(n / 10).push((48 + n % 10) as u8)
    }
}

/// The statement a verifier signs: the transaction identifier, a colon, and the
/// quality score in decimal.
pub open spec fn resolution_statement(transaction_id: Seq<char>, quality_score: u8) -> Seq<u8> {
    encode_utf8(transaction_id) + seq![58u8] + decimal(quality_score as nat)
}

/// Whether `data` holds `expected` at `start`.
fn bytes_at(data: &Vec<u8>, start: usize, expected: &[u8]) -> (r: bool)
    ensures
        r == holds_at(data@, start as int, expected@),
{
    if expected.len() > data.len() || start > data.len() - expected.len() {
        return false;
    }
    let mut i: usize = 0;
    while i < expected.len()
        invariant
            0 <= i <= expected.len(),
            start + expected.len() <= data.len(),
            forall|j: int| 0 <= j < i ==> data@[start + j] == expected@[j],
        decreases expected.len() - i,
    {
        if data[start + i] != expected[i] {
            assert(data@.subrange(start as int, start + expected.len())[i as int] != expected@[i as int]);
            return false;
        }
        i = i + 1;
    }
    assert(data@.subrange(start as int, start + expected.len()) =~= expected@);
    true
}

fn read_le_u16(data: &Vec<u8>, at: usize) -> (r: usize)
    requires
        at + 1 < data.len(),
    ensures
        r as int == le_u16(data@, at as int),
{
    data[at] as usize + data[at + 1] as usize * 256
}

/// Checks that the Ed25519 instruction of the transaction verified `signature` by
/// `verifier` over `message`; fails with `InvalidSignature` otherwise.
pub fn verify_ed25519_signature(
    instruction: &SignatureInstruction,
    signature: &[u8; 64],
    verifier: &Address,
    message: &Vec<u8>,
) -> (r: Result<(), MitamaError>)
    ensures
        r is Ok <==> ed25519_instruction_matches(
            instruction.program_id@,
            instruction.data@,
            signature@,
            verifier@,
            message@,
        ),
        r is Err ==> r == Err::<(), MitamaError>(MitamaError::InvalidSignature),
{
    let ed25519 = ed25519_program_id();
    if !instruction.program_id.same_as(&ed25519) {
        return Err(MitamaError::InvalidSignature);
    }
    let data = &instruction.data;
    if data.len() < 16 || data[0] != 1 {
        return Err(MitamaError::InvalidSignature);
    }
    let sig_offset = read_le_u16(data, 2);
    let pubkey_offset = read_le_u16(data, 6);
    let message_offset = read_le_u16(data, 10);
    let message_size = read_le_u16(data, 12);
    if !bytes_at(data, sig_offset, signature.as_slice()) {
        return Err(MitamaError::InvalidSignature);
    }
    if !bytes_at(data, pubkey_offset, verifier.bytes.as_slice()) {
        return Err(MitamaError::InvalidSignature);
    }
    if message_size != message.len() || !bytes_at(data, message_offset, message.as_slice()) {
        return Err(MitamaError::InvalidSignature);
    }
    Ok(())
}

/// Appends the decimal digits of `n`.
fn push_decimal(out: &mut Vec<u8>, n: u8)
    ensures
        final(out)@ == old(out)@ + decimal(n as nat),
{
    reveal_with_fuel(decimal, 3);
    if n >= 100 {
        out.push(48 + n / 100);
        out.push(48 + (n / 10) % 10);
        out.push(48 + n % 10);
        assert(decimal(n as nat) =~= seq![(48 + n / 100) as u8, (48 + (n / 10) % 10) as u8, (48 + n % 10) as u8]);
    } else if n >= 10 {
        out.push(48 + n / 10);
        out.push(48 + n % 10);
        assert(decimal(n as nat) =~= seq![(48 + n / 10) as u8, (48 + n % 10) as u8]);
    } else {
        out.push(48 + n);
        assert(decimal(n as nat) =~= seq![(48 + n) as u8]);
    }
    assert(final(out)@ =~= old(out)@ + decimal(n as nat));
}

/// The bytes a verifier signs to assert `quality_score` for `transaction_id`.
pub fn resolution_message(transaction_id: &String, quality_score: u8) -> (r: Vec<u8>)
    ensures
        r@ == resolution_statement(transaction_id@, quality_score),
{
    let id_bytes = transaction_id.as_str().as_bytes();
    let mut out: Vec<u8> = Vec::new();
    let mut i: usize = 0;
    while i < id_bytes.len()
        invariant
            0 <= i <= id_bytes.len(),
            id_bytes@ == encode_utf8(transaction_id@),
            out@ == id_bytes@.take(i as int),
        decreases id_bytes.len() - i,
    {
        out.push(id_bytes[i]);
        assert(out@ =~= id_bytes@.take(i + 1));
        i = i + 1;
    }
    assert(out@ =~= encode_utf8(transaction_id@));
    out.push(58);
    push_decimal(&mut out, quality_score);
    assert(out@ =~= resolution_statement(transaction_id@, quality_score));
    out
}

} // verus!
