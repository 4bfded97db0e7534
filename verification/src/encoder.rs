//! The two command encodings, one per base-station generation.
//!
//! Generation 1 sends a fixed 20-byte frame addressed by a 4-byte device
//! sub-identifier read from the trailing 8 hexadecimal characters of the
//! advertised name. Generation 2 sends a single state byte. Each generation
//! writes to its own, statically known GATT characteristic.

use vstd::prelude::*;

use crate::hex::{hex_pair_value, is_hex_digit, parse_hex_pair};
use crate::state::{LogicalState, RunError};

verus! {

/// The Generation-1 write characteristic, as a 128-bit value
/// (0000cb01-0000-1000-8000-00805f9b34fb).
pub const GEN1_CHARACTERISTIC: u128 = 0x0000cb01_0000_1000_8000_00805f9b34fb;

/// The Generation-2 write characteristic, as a 128-bit value
/// (00001525-1212-efde-1523-785feabcd124).
pub const GEN2_CHARACTERISTIC: u128 = 0x00001525_1212_efde_1523_785feabcd124;

/// A command ready to write: the frame bytes and the characteristic to
/// write them to. Built once per dispatch and never mutated afterwards.
#[derive(Debug)]
pub struct CommandPayload {
    pub bytes: Vec<u8>,
    pub target: u128,
}

/// The trailing 8 characters of a Generation-1 name, which spell the
/// 4-byte device sub-identifier.
pub open spec fn gen1_tail(name: Seq<char>) -> Seq<char>
    recommends
        name.len() >= 8,
{
    name.subrange(name.len() - 8, name.len() as int)
}

/// A Generation-1 name is well-formed when it is long enough and its
/// trailing 8 characters are all hexadecimal digits.
pub open spec fn gen1_name_valid(name: Seq<char>) -> bool {
    name.len() >= 8 && forall|i: int| 0 <= i < 8 ==> is_hex_digit(#[trigger] gen1_tail(name)[i])
}

/// The 4-byte frame header: Off and On have distinct headers; Standby has
/// no Generation-1 frame at all.
pub open spec fn gen1_header(state: LogicalState) -> Seq<u8>
    recommends
        state != LogicalState::Standby,
{
    match state {
        LogicalState::Off => seq![0x12u8, 0x02u8, 0x00u8, 0x01u8],
        _ => seq![0x12u8, 0x00u8, 0x00u8, 0x00u8],
    }
}

/// The device sub-identifier bytes in payload order: the name's last two
/// hexadecimal characters give the first byte, and so on (little-endian
/// with respect to the big-endian character order of the tail).
pub open spec fn gen1_id_bytes(tail: Seq<char>) -> Seq<u8>
    recommends
        tail.len() == 8,
{
    seq![
        hex_pair_value(tail[6], tail[7]),
        hex_pair_value(tail[4], tail[5]),
        hex_pair_value(tail[2], tail[3]),
        hex_pair_value(tail[0], tail[1]),
    ]
}

/// The full 20-byte Generation-1 frame: header, reversed identifier, and
/// 12 bytes of zero padding.
pub open spec fn gen1_frame(state: LogicalState, tail: Seq<char>) -> Seq<u8>
    recommends
        state != LogicalState::Standby,
        tail.len() == 8,
{
    gen1_header(state) + gen1_id_bytes(tail) + seq![
        0x00u8,
        0x00u8,
        0x00u8,
        0x00u8,
        0x00u8,
        0x00u8,
        0x00u8,
        0x00u8,
        0x00u8,
        0x00u8,
        0x00u8,
        0x00u8,
    ]
}

/// Encode a Generation-1 command for the device whose advertised name is
/// `name`. Fails with `FormatError` when the name does not end in four
/// valid hex pairs (malformed or too short), and with
/// `UnsupportedStateError` when Standby is requested of a well-formed name:
/// Generation 1 has no standby frame.
pub fn encode_gen1(name: &str, state: LogicalState) -> (r: Result<CommandPayload, RunError>)
    ensures
        r is Ok <==> gen1_name_valid(name@) && state != LogicalState::Standby,
        r matches Ok(p) ==> p.bytes@ == gen1_frame(state, gen1_tail(name@)) && p.target
            == GEN1_CHARACTERISTIC,
        !gen1_name_valid(name@) ==> r == Err::<CommandPayload, RunError>(RunError::FormatError),
        gen1_name_valid(name@) && state == LogicalState::Standby ==> r == Err::<
            CommandPayload,
            RunError,
        >(RunError::UnsupportedStateError),
{
    let n = name.unicode_len();
    if n < 8 {
        return Err(RunError::FormatError);
    }
    let t0 = name.get_char(n - 8);
    let t1 = name.get_char(n - 7);
    let t2 = name.get_char(n - 6);
    let t3 = name.get_char(n - 5);
    let t4 = name.get_char(n - 4);
    let t5 = name.get_char(n - 3);
    let t6 = name.get_char(n - 2);
    let t7 = name.get_char(n - 1);
    assert(forall|i: int| 0 <= i < 8 ==> gen1_tail(name@)[i] == name@[name@.len() - 8 + i]);
    let aa = match parse_hex_pair(t0, t1) {
        Some(v) => v,
        None => {
            assert(!is_hex_digit(gen1_tail(name@)[0]) || !is_hex_digit(gen1_tail(name@)[1]));
            assert(!gen1_name_valid(name@));
            return Err(RunError::FormatError);
        },
    };
    let bb = match parse_hex_pair(t2, t3) {
        Some(v) => v,
        None => {
            assert(!is_hex_digit(gen1_tail(name@)[2]) || !is_hex_digit(gen1_tail(name@)[3]));
            assert(!gen1_name_valid(name@));
            return Err(RunError::FormatError);
        },
    };
    let cc = match parse_hex_pair(t4, t5) {
        Some(v) => v,
        None => {
            assert(!is_hex_digit(gen1_tail(name@)[4]) || !is_hex_digit(gen1_tail(name@)[5]));
            assert(!gen1_name_valid(name@));
            return Err(RunError::FormatError);
        },
    };
    let dd = match parse_hex_pair(t6, t7) {
        Some(v) => v,
        None => {
            assert(!is_hex_digit(gen1_tail(name@)[6]) || !is_hex_digit(gen1_tail(name@)[7]));
            assert(!gen1_name_valid(name@));
            return Err(RunError::FormatError);
        },
    };
    assert(gen1_name_valid(name@));
    let header: (u8, u8, u8, u8) = match state {
        LogicalState::Off => (0x12, 0x02, 0x00, 0x01),
        LogicalState::On => (0x12, 0x00, 0x00, 0x00),
        LogicalState::Standby => {
            return Err(RunError::UnsupportedStateError);
        },
    };
    let bytes: Vec<u8> = vec![
        header.0,
        header.1,
        header.2,
        header.3,
        dd,
        cc,
        bb,
        aa,
        0x00,
        0x00,
        0x00,
        0x00,
        0x00,
        0x00,
        0x00,
        0x00,
        0x00,
        0x00,
        0x00,
        0x00,
    ];
    assert(bytes@ =~= gen1_frame(state, gen1_tail(name@)));
    Ok(CommandPayload { bytes, target: GEN1_CHARACTERISTIC })
}

/// The single Generation-2 state byte.
pub open spec fn gen2_byte(state: LogicalState) -> u8 {
    match state {
        LogicalState::Off => 0x00,
        LogicalState::On => 0x01,
        LogicalState::Standby => 0x02,
    }
}

/// Encode a Generation-2 command: a one-byte payload, total over all three
/// states.
pub fn encode_gen2(state: LogicalState) -> (p: CommandPayload)
    ensures
        p.bytes@ == seq![gen2_byte(state)],
        p.target == GEN2_CHARACTERISTIC,
{
    let b: u8 = match state {
        LogicalState::Off => 0x00,
        LogicalState::On => 0x01,
        LogicalState::Standby => 0x02,
    };
    let bytes: Vec<u8> = vec![b];
    assert(bytes@ =~= seq![gen2_byte(state)]);
    CommandPayload { bytes, target: GEN2_CHARACTERISTIC }
}

/// Generation-2 encoding is injective, and only the bytes 0x00, 0x01 and
/// 0x02 are ever produced.
pub proof fn lemma_gen2_injective(s1: LogicalState, s2: LogicalState)
    ensures
        gen2_byte(s1) == gen2_byte(s2) ==> s1 == s2,
        gen2_byte(s1) == 0x00 || gen2_byte(s1) == 0x01 || gen2_byte(s1) == 0x02,
{
}

/// The shape of every Off frame of Generation 1: it is 20 bytes long, its
/// header reads `12 02 00 01`, its identifier bytes are the tail's hex
/// pairs in reverse pair order, and the rest is zero padding.
pub proof fn lemma_gen1_off_frame(tail: Seq<char>)
    requires
        tail.len() == 8,
        forall|i: int| 0 <= i < 8 ==> is_hex_digit(#[trigger] tail[i]),
    ensures
        gen1_frame(LogicalState::Off, tail).len() == 20,
        gen1_frame(LogicalState::Off, tail).subrange(0, 4) =~= seq![0x12u8, 0x02u8, 0x00u8, 0x01u8],
        forall|k: int|
            0 <= k < 4 ==> #[trigger] gen1_frame(LogicalState::Off, tail)[4 + k] == hex_pair_value(
                tail[6 - 2 * k],
                tail[7 - 2 * k],
            ),
        forall|k: int| 8 <= k < 20 ==> #[trigger] gen1_frame(LogicalState::Off, tail)[k] == 0x00u8,
{
    let f = gen1_frame(LogicalState::Off, tail);
    assert forall|k: int| 0 <= k < 4 implies #[trigger] f[4 + k] == hex_pair_value(
        tail[6 - 2 * k],
        tail[7 - 2 * k],
    ) by {
        assert(f[4 + k] == gen1_id_bytes(tail)[k]);
    }
}

} // verus!
