//! CRC-32 for OGG pages: the non-reflected (MSB-first) variant with
//! polynomial 0x04C11DB7, table driven, computed over the page header with
//! its CRC field zeroed, followed by the payload.

use vstd::prelude::*;

verus! {

/// One shift-and-conditionally-xor round of the table generator.
pub open spec fn crc_shift(r: u32) -> u32 {
    if r & 0x8000_0000u32 != 0 {
        (r << 1u32) ^ 0x04c1_1db7u32
    } else {
        r << 1u32
    }
}

/// The table generator after `j` rounds, starting from `i << 24`.
pub open spec fn crc_entry_iter(i: u32, j: nat) -> u32
    decreases j,
{
    if j == 0 {
        i << 24u32
    } else {
        crc_shift(crc_entry_iter(i, (j - 1) as nat))
    }
}

/// Entry `i` of the CRC lookup table: eight generator rounds.
pub open spec fn crc_table_entry(i: u32) -> u32 {
    crc_entry_iter(i, 8)
}

/// Folding one byte into a running CRC.
pub open spec fn crc_update(crc: u32, byte: u8) -> u32 {
    (crc << 8u32) ^ crc_table_entry((((crc >> 24u32) as u8) ^ byte) as u32)
}

/// Folding a whole byte sequence into a running CRC, left to right.
pub open spec fn crc_fold(crc: u32, bytes: Seq<u8>) -> u32
    decreases bytes.len(),
{
    if bytes.len() == 0 {
        crc
    } else {
        crc_update(crc_fold(crc, bytes.drop_last()), bytes.last())
    }
}

/// The page header with bytes 22..26 (the CRC field) replaced by zero;
/// a header shorter than 26 bytes is left as it is.
pub open spec fn zero_crc_field(header: Seq<u8>) -> Seq<u8> {
    if header.len() >= 26 {
        header.map(|i: int, b: u8| if 22 <= i < 26 { 0u8 } else { b })
    } else {
        header
    }
}

/// The CRC of an OGG page: the header with its CRC field zeroed,
/// then the payload, folded into an all-zero initial value.
pub open spec fn spec_ogg_crc(header: Seq<u8>, data: Seq<u8>) -> u32 {
    crc_fold(crc_fold(0u32, zero_crc_field(header)), data)
}

/// Build the 256-entry CRC lookup table.
pub fn generate_crc_table() -> (table: Vec<u32>)
    ensures
        table@.len() == 256,
        forall|i: int| 0 <= i < 256 ==> table@[i] == crc_table_entry(i as u32),
{
    let mut table: Vec<u32> = Vec::new();
    let mut i: usize = 0;
    while i < 256
        invariant
            i <= 256,
            table@.len() == i,
            forall|k: int| 0 <= k < i ==> table@[k] == crc_table_entry(k as u32),
        decreases 256 - i,
    {
        let mut r: u32 = (i as u32) << 24u32;
        let mut j: usize = 0;
        while j < 8
            invariant
                j <= 8,
                r == crc_entry_iter(i as u32, j as nat),
            decreases 8 - j,
        {
            if r & 0x8000_0000u32 != 0 {
                r = (r << 1u32) ^ 0x04c1_1db7u32;
            } else {
                r = r << 1u32;
            }
            j += 1;
        }
        table.push(r);
        i += 1;
    }
    table
}

/// Fold the bytes of `bytes` into `crc`, left to right.
fn crc_fold_exec(table: &Vec<u32>, crc0: u32, bytes: &[u8]) -> (crc: u32)
    requires
        table@.len() == 256,
        forall|i: int| 0 <= i < 256 ==> table@[i] == crc_table_entry(i as u32),
    ensures
        crc == crc_fold(crc0, bytes@),
{
    let mut crc = crc0;
    let mut i: usize = 0;
    while i < bytes.len()
        invariant
            i <= bytes@.len(),
            crc == crc_fold(crc0, bytes@.subrange(0, i as int)),
            table@.len() == 256,
            forall|k: int| 0 <= k < 256 ==> table@[k] == crc_table_entry(k as u32),
        decreases bytes@.len() - i,
    {
        let byte = bytes[i];
        let idx: usize = (((crc >> 24u32) as u8) ^ byte) as usize;
        crc = (crc << 8u32) ^ table[idx];
        i += 1;
        proof {
            let prefix = bytes@.subrange(0, i as int);
            assert(prefix.drop_last() =~= bytes@.subrange(0, i - 1));
            assert(prefix.last() == byte);
        }
    }
    proof {
        assert(bytes@.subrange(0, bytes@.len() as int) =~= bytes@);
    }
    crc
}

/// The OGG page CRC of `header` and payload `data`: the CRC field inside
/// the header (bytes 22..26) is zeroed before the computation, so whatever
/// that field held cannot influence the result.
pub fn ogg_crc(header: &[u8], data: &[u8]) -> (crc: u32)
    ensures
        crc == spec_ogg_crc(header@, data@),
{
    let table = generate_crc_table();

    let mut zeroed: Vec<u8> = Vec::new();
    let mut i: usize = 0;
    while i < header.len()
        invariant
            i <= header@.len(),
            zeroed@.len() == i,
            forall|k: int|
                0 <= k < i ==> zeroed@[k] == (if header@.len() >= 26 && 22 <= k < 26 {
                    0u8
                } else {
                    header@[k]
                }),
        decreases header@.len() - i,
    {
        if header.len() >= 26 && 22 <= i && i < 26 {
            zeroed.push(0u8);
        } else {
            zeroed.push(header[i]);
        }
        i += 1;
    }
    proof {
        assert(zeroed@ =~= zero_crc_field(header@));
    }

    let crc = crc_fold_exec(&table, 0u32, zeroed.as_slice());
    crc_fold_exec(&table, crc, data)
}

/// The CRC ignores what the header's CRC field held: two headers that agree
/// everywhere outside bytes 22..26 yield the same page CRC.
pub proof fn lemma_crc_ignores_crc_field(h1: Seq<u8>, h2: Seq<u8>, data: Seq<u8>)
    requires
        h1.len() == h2.len(),
        h1.len() >= 26,
        forall|i: int| 0 <= i < h1.len() && !(22 <= i < 26) ==> h1[i] == h2[i],
    ensures
        spec_ogg_crc(h1, data) == spec_ogg_crc(h2, data),
{
    assert(zero_crc_field(h1) =~= zero_crc_field(h2));
}

} // verus!
