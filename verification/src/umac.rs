//! Upper MAC PDU association for the PDU debugging tool: the meaning of the
//! length indication, fill bit detection and the split of a MAC block into
//! the PDU and what follows it. A MAC block is given as its bits, most
//! significant first, from the current read position to the end of the block.
use vstd::prelude::*;
use crate::text::push_char;

verus! {

/// What a length indication says of the PDU that carries it.
#[derive(Debug, Clone, Copy, PartialEq, Eq, Structural)]
pub struct LengthIndInfo {
    /// PDU payload length in bits (0 for null PDU or fragmentation)
    pub pdu_len_bits: usize,
    /// Whether this is a null PDU
    pub is_null_pdu: bool,
    /// Whether this is fragmentation start (no length known)
    pub is_frag_start: bool,
    /// Whether second half slot is stolen (STCH)
    pub second_half_stolen: bool,
}

/// Upper MAC PDU debugging.
pub struct UmacParser;

/// The meaning of a 6-bit length indication (EN 300 392-2 clause 21.4.3.1),
/// with `remaining_bits` left in the MAC block: 0 is a null PDU; 2 to 57 give
/// the length in octets, at most what remains; 62 steals the second half slot
/// and takes the rest of the block; 63 starts a fragmented TL-SDU, whose
/// length is not known here and is given as 0; the other values are reserved
/// and give an empty PDU.
pub open spec fn length_ind_spec(length_ind: u8, remaining_bits: usize) -> LengthIndInfo {
    let none = LengthIndInfo { pdu_len_bits: 0, is_null_pdu: false, is_frag_start: false, second_half_stolen: false };
    if length_ind == 0 {
        LengthIndInfo { is_null_pdu: true, ..none }
    } else if 2 <= length_ind <= 57 {
        let len = length_ind * 8;
        LengthIndInfo { pdu_len_bits: if len < remaining_bits { len as usize } else { remaining_bits }, ..none }
    } else if length_ind == 62 {
        LengthIndInfo { pdu_len_bits: remaining_bits, second_half_stolen: true, ..none }
    } else if length_ind == 63 {
        LengthIndInfo { is_frag_start: true, ..none }
    } else {
        none
    }
}

/// Number of fill bits at the end of the first `len` bits: the bits from the
/// last `1` among them to `len`, or 0 when they are all `0` or run past the
/// block.
pub open spec fn fill_bits_from(bits: Seq<bool>, len: int, k: int) -> int
    decreases k,
{
    if k <= 0 {
        0
    } else if k - 1 >= bits.len() {
        0
    } else if !bits[k - 1] {
        fill_bits_from(bits, len, k - 1)
    } else {
        len - (k - 1)
    }
}

/// The bits from `from` to the end of the block, written as `0` and `1`.
pub open spec fn bit_text(bits: Seq<bool>, from: int) -> Seq<char> {
    bits.skip(from).map_values(|b: bool| if b { '1' } else { '0' })
}

/// The rest of a MAC block after its first PDU, when the length indication
/// delimits that PDU and at least 16 bits (a null PDU) follow it.
pub open spec fn next_block_spec(bits: Seq<bool>, length_ind: Option<u8>) -> Option<Seq<char>> {
    match length_ind {
        None => None,
        Some(li) => {
            let info = length_ind_spec(li, bits.len() as usize);
            if info.is_null_pdu || info.is_frag_start || info.second_half_stolen {
                None
            } else if bits.len() - info.pdu_len_bits >= 16 {
                Some(bit_text(bits, info.pdu_len_bits as int))
            } else {
                None
            }
        },
    }
}

impl UmacParser {
    /// The meaning of a length indication.
    pub fn interpret_length_ind(length_ind: u8, remaining_bits: usize) -> (r: LengthIndInfo)
        ensures
            r == length_ind_spec(length_ind, remaining_bits),
    {
        let none = LengthIndInfo { pdu_len_bits: 0, is_null_pdu: false, is_frag_start: false, second_half_stolen: false };
        if length_ind == 0 {
            LengthIndInfo { is_null_pdu: true, ..none }
        } else if 2 <= length_ind && length_ind <= 57 {
            let len: usize = (length_ind as usize) * 8;
            LengthIndInfo { pdu_len_bits: if len < remaining_bits { len } else { remaining_bits }, ..none }
        } else if length_ind == 62 {
            LengthIndInfo { pdu_len_bits: remaining_bits, second_half_stolen: true, ..none }
        } else if length_ind == 63 {
            LengthIndInfo { is_frag_start: true, ..none }
        } else {
            none
        }
    }

    /// Number of fill bits at the end of the first `pdu_len_bits` bits of the block.
    pub fn count_fill_bits(bits: &[bool], pdu_len_bits: usize) -> (r: usize)
        ensures
            r as int == fill_bits_from(bits@, pdu_len_bits as int, pdu_len_bits as int),
    {
        let mut k: usize = pdu_len_bits;
        while k > 0
            invariant
                k <= pdu_len_bits,
                fill_bits_from(bits@, pdu_len_bits as int, pdu_len_bits as int) == fill_bits_from(
                    bits@,
                    pdu_len_bits as int,
                    k as int,
                ),
            decreases k,
        {
            if k - 1 >= bits.len() {
                return 0;
            }
            if bits[k - 1] {
                return pdu_len_bits - (k - 1);
            }
            k = k - 1;
        }
        0
    }

    /// The rest of a MAC block after its first PDU, as `0` and `1`, when at
    /// least 16 bits follow the PDU that the length indication delimits.
    pub fn apply_pdu_association(bits: &[bool], length_ind: Option<u8>) -> (r: Option<String>)
        ensures
            match next_block_spec(bits@, length_ind) {
                Some(t) => r matches Some(s) && s@ == t,
                None => r is None,
            },
    {
        let li = match length_ind {
            Some(li) => li,
            None => return None,
        };
        let info = Self::interpret_length_ind(li, bits.len());
        if info.is_null_pdu || info.is_frag_start || info.second_half_stolen {
            return None;
        }
        let pdu_len = info.pdu_len_bits;
        let remaining_after: usize = bits.len() - pdu_len;
        if remaining_after < 16 {
            return None;
        }
        let mut out = String::new();
        let mut i = pdu_len;
        while i < bits.len()
            invariant
                pdu_len <= i <= bits@.len(),
                out@ == bits@.subrange(pdu_len as int, i as int).map_values(|b: bool| if b { '1' } else { '0' }),
            decreases bits@.len() - i,
        {
            push_char(&mut out, if bits[i] { '1' } else { '0' });
            i = i + 1;
            assert(out@ =~= bits@.subrange(pdu_len as int, i as int).map_values(
                |b: bool| if b { '1' } else { '0' },
            ));
        }
        assert(bits@.subrange(pdu_len as int, bits@.len() as int) =~= bits@.skip(pdu_len as int));
        Some(out)
    }
}

} // verus!
