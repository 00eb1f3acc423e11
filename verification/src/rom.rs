//! Cartridge image parsing: the iNES v1 container.
//!
//! A cartridge image starts with a 16-byte header: the four magic bytes
//! `4E 45 53 1A`, the PRG bank count (16 KiB units), the CHR bank count
//! (8 KiB units), two flag bytes, and eight ignored bytes.  The body is an
//! optional 512-byte trainer followed by the PRG bytes and the CHR bytes.

use vstd::prelude::*;
use vstd::assert_seqs_equal;

verus! {

/// How the four logical nametables alias onto the two physical banks.
#[derive(Clone, Copy, Debug, PartialEq, Eq, Structural)]
pub enum Mirroring {
    Horizontal,
    Vertical,
    FourScreen,
}

/// Why a cartridge image was rejected at load time.
#[derive(Clone, Copy, Debug, PartialEq, Eq, Structural)]
pub enum RomError {
    /// The magic bytes are wrong.
    InvalidHeader,
    /// The iNES version bits are not zero (only version 1 is accepted).
    UnsupportedVersion,
    /// The image is shorter than its header promises.
    TruncatedRom,
    /// The mapper number is one this emulator does not implement.
    UnsupportedMapper(u8),
}

/// A parsed cartridge: PRG code, CHR tile data, mapper number, mirroring.
pub struct Rom {
    pub prg_rom: Vec<u8>,
    pub chr_rom: Vec<u8>,
    pub mapper: u8,
    pub mirroring: Mirroring,
}

pub const PRG_PAGE: usize = 16384;
pub const CHR_PAGE: usize = 8192;
pub const INES_HEADER_LEN: usize = 16;

pub open spec fn ines_magic_ok(raw: Seq<u8>) -> bool {
    raw[0] == 0x4Eu8 && raw[1] == 0x45u8 && raw[2] == 0x53u8 && raw[3] == 0x1Au8
}

pub open spec fn ines_version(raw: Seq<u8>) -> u8 {
    (raw[7] / 4) % 4
}

pub open spec fn ines_mapper(raw: Seq<u8>) -> u8 {
    ((raw[7] / 16) * 16 + raw[6] / 16) as u8
}

pub open spec fn ines_mirroring(raw: Seq<u8>) -> Mirroring {
    if (raw[6] / 8) % 2 == 1 {
        Mirroring::FourScreen
    } else if raw[6] % 2 == 1 {
        Mirroring::Vertical
    } else {
        Mirroring::Horizontal
    }
}

pub open spec fn ines_has_trainer(raw: Seq<u8>) -> bool {
    (raw[6] / 4) % 2 == 1
}

pub open spec fn ines_prg_len(raw: Seq<u8>) -> nat {
    (raw[4] as nat) * (PRG_PAGE as nat)
}

pub open spec fn ines_chr_len(raw: Seq<u8>) -> nat {
    (raw[5] as nat) * (CHR_PAGE as nat)
}

pub open spec fn ines_prg_start(raw: Seq<u8>) -> nat {
    if ines_has_trainer(raw) {
        (INES_HEADER_LEN + 512) as nat
    } else {
        INES_HEADER_LEN as nat
    }
}

pub open spec fn ines_body_end(raw: Seq<u8>) -> nat {
    ines_prg_start(raw) + ines_prg_len(raw) + ines_chr_len(raw)
}

/// All the checks a cartridge image must pass to load.
pub open spec fn ines_ok(raw: Seq<u8>) -> bool {
    &&& raw.len() >= INES_HEADER_LEN
    &&& ines_magic_ok(raw)
    &&& ines_version(raw) == 0
    &&& ines_mapper(raw) == 0
    &&& raw.len() >= ines_body_end(raw)
}

/// The error reported for a rejected image: the checks are made in the
/// order header length, magic, version, mapper, body length, and the first
/// failure wins.
pub open spec fn ines_error(raw: Seq<u8>) -> RomError {
    if raw.len() < INES_HEADER_LEN {
        RomError::TruncatedRom
    } else if !ines_magic_ok(raw) {
        RomError::InvalidHeader
    } else if ines_version(raw) != 0 {
        RomError::UnsupportedVersion
    } else if ines_mapper(raw) != 0 {
        RomError::UnsupportedMapper(ines_mapper(raw))
    } else {
        RomError::TruncatedRom
    }
}

impl Rom {
    /// What a successfully parsed image guarantees about its fields.
    pub open spec fn matches_ines(self, raw: Seq<u8>) -> bool {
        &&& self.prg_rom@ == raw.subrange(
            ines_prg_start(raw) as int,
            (ines_prg_start(raw) + ines_prg_len(raw)) as int,
        )
        &&& self.chr_rom@ == raw.subrange(
            (ines_prg_start(raw) + ines_prg_len(raw)) as int,
            ines_body_end(raw) as int,
        )
        &&& self.mapper == ines_mapper(raw)
        &&& self.mirroring == ines_mirroring(raw)
    }

    /// Parse an iNES v1 image.  Succeeds exactly on well-formed images of
    /// a supported (NROM) cartridge, and names the first failed check
    /// otherwise.
    pub fn new(raw: &Vec<u8>) -> (r: Result<Rom, RomError>)
        ensures
            r is Ok <==> ines_ok(raw@),
            r matches Ok(rom) ==> rom.matches_ines(raw@),
            r matches Err(e) ==> e == ines_error(raw@),
    {
        if raw.len() < INES_HEADER_LEN {
            return Err(RomError::TruncatedRom);
        }
        if !(raw[0] == 0x4E && raw[1] == 0x45 && raw[2] == 0x53 && raw[3] == 0x1A) {
            return Err(RomError::InvalidHeader);
        }
        let ines_ver: u8 = (raw[7] / 4) % 4;
        if ines_ver != 0 {
            return Err(RomError::UnsupportedVersion);
        }
        let mapper: u8 = (raw[7] / 16) * 16 + raw[6] / 16;
        if mapper != 0 {
            return Err(RomError::UnsupportedMapper(mapper));
        }

        let four_screen: bool = (raw[6] / 8) % 2 == 1;
        let vertical: bool = raw[6] % 2 == 1;
        let mirroring = if four_screen {
            Mirroring::FourScreen
        } else if vertical {
            Mirroring::Vertical
        } else {
            Mirroring::Horizontal
        };

        let prg_len: usize = (raw[4] as usize) * PRG_PAGE;
        let chr_len: usize = (raw[5] as usize) * CHR_PAGE;
        let prg_start: usize = if (raw[6] / 4) % 2 == 1 {
            INES_HEADER_LEN + 512
        } else {
            INES_HEADER_LEN
        };

        if raw.len() < prg_start + prg_len + chr_len {
            return Err(RomError::TruncatedRom);
        }

        let prg_rom = copy_range(raw, prg_start, prg_len);
        let chr_rom = copy_range(raw, prg_start + prg_len, chr_len);
        Ok(Rom { prg_rom, chr_rom, mapper, mirroring })
    }
}

/// The flag byte holding the low mapper nibble, the four-screen bit, the
/// trainer bit (always clear here) and the vertical-mirroring bit.
pub open spec fn ines_flags6(mapper: u8, mirroring: Mirroring) -> u8 {
    ((mapper % 16) * 16 + (if mirroring is FourScreen {
        8int
    } else {
        0int
    }) + (if mirroring is Vertical {
        1int
    } else {
        0int
    })) as u8
}

/// The flag byte holding the high mapper nibble and the version bits
/// (always zero here).
pub open spec fn ines_flags7(mapper: u8) -> u8 {
    ((mapper / 16) * 16) as u8
}

/// The byte sequence `Rom::to_bytes` produces: a 16-byte header, then the
/// PRG bytes, then the CHR bytes.
pub open spec fn serialize_ines(prg: Seq<u8>, chr: Seq<u8>, mapper: u8, mirroring: Mirroring) -> Seq<u8> {
    seq![
        0x4Eu8,
        0x45u8,
        0x53u8,
        0x1Au8,
        (prg.len() / (PRG_PAGE as nat)) as u8,
        (chr.len() / (CHR_PAGE as nat)) as u8,
        ines_flags6(mapper, mirroring),
        ines_flags7(mapper),
        0u8,
        0u8,
        0u8,
        0u8,
        0u8,
        0u8,
        0u8,
        0u8,
    ] + prg + chr
}

/// Bank sizes an iNES header can carry: whole pages, and page counts that
/// fit one byte each.
pub open spec fn ines_sizes_ok(prg: Seq<u8>, chr: Seq<u8>) -> bool {
    &&& prg.len() % (PRG_PAGE as nat) == 0
    &&& prg.len() / (PRG_PAGE as nat) < 256
    &&& chr.len() % (CHR_PAGE as nat) == 0
    &&& chr.len() / (CHR_PAGE as nat) < 256
}

impl Rom {
    /// The serializer's precondition, phrased over the parsed fields.
    pub open spec fn serializable(self) -> bool {
        ines_sizes_ok(self.prg_rom@, self.chr_rom@)
    }

    /// Rebuild the iNES byte image of this cartridge.
    pub fn to_bytes(&self) -> (r: Vec<u8>)
        requires
            self.serializable(),
        ensures
            r@ == serialize_ines(self.prg_rom@, self.chr_rom@, self.mapper, self.mirroring),
    {
        let mut out: Vec<u8> = Vec::new();
        out.push(0x4E);
        out.push(0x45);
        out.push(0x53);
        out.push(0x1A);
        out.push((self.prg_rom.len() / PRG_PAGE) as u8);
        out.push((self.chr_rom.len() / CHR_PAGE) as u8);
        let four_screen: u8 = if matches!(self.mirroring, Mirroring::FourScreen) {
            8
        } else {
            0
        };
        let vertical: u8 = if matches!(self.mirroring, Mirroring::Vertical) {
            1
        } else {
            0
        };
        out.push((self.mapper % 16) * 16 + four_screen + vertical);
        out.push((self.mapper / 16) * 16);
        let mut i: usize = 0;
        while i < 8
            invariant
                i <= 8,
                out@.len() == 8 + i,
                out@ == serialize_ines(
                    self.prg_rom@,
                    self.chr_rom@,
                    self.mapper,
                    self.mirroring,
                ).subrange(0, 8 + i),
            decreases 8 - i,
        {
            out.push(0);
            proof {
                assert_seqs_equal!(
                    out@ == serialize_ines(
                        self.prg_rom@, self.chr_rom@, self.mapper, self.mirroring,
                    ).subrange(0, 8 + i + 1)
                );
            }
            i += 1;
        }
        append_all(&mut out, &self.prg_rom);
        append_all(&mut out, &self.chr_rom);
        proof {
            assert_seqs_equal!(
                out@ == serialize_ines(self.prg_rom@, self.chr_rom@, self.mapper, self.mirroring)
            );
        }
        out
    }
}

/// Parsing the serialized image of an NROM cartridge gives back exactly
/// the PRG bytes, CHR bytes, mapper number and mirroring it was built
/// from.
pub proof fn lemma_ines_round_trip(prg: Seq<u8>, chr: Seq<u8>, mapper: u8, mirroring: Mirroring)
    requires
        mapper == 0,
        ines_sizes_ok(prg, chr),
    ensures
        ines_ok(serialize_ines(prg, chr, mapper, mirroring)),
        serialize_ines(prg, chr, mapper, mirroring).subrange(
            ines_prg_start(serialize_ines(prg, chr, mapper, mirroring)) as int,
            (ines_prg_start(serialize_ines(prg, chr, mapper, mirroring))
                + ines_prg_len(serialize_ines(prg, chr, mapper, mirroring))) as int,
        ) == prg,
        serialize_ines(prg, chr, mapper, mirroring).subrange(
            (ines_prg_start(serialize_ines(prg, chr, mapper, mirroring))
                + ines_prg_len(serialize_ines(prg, chr, mapper, mirroring))) as int,
            ines_body_end(serialize_ines(prg, chr, mapper, mirroring)) as int,
        ) == chr,
        ines_mapper(serialize_ines(prg, chr, mapper, mirroring)) == mapper,
        ines_mirroring(serialize_ines(prg, chr, mapper, mirroring)) == mirroring,
{
    let raw = serialize_ines(prg, chr, mapper, mirroring);
    let p = prg.len() as int;
    let c = chr.len() as int;
    assert(raw.len() == 16 + p + c);
    assert(raw[6] == ines_flags6(mapper, mirroring));
    assert(raw[7] == 0);
    vstd::arithmetic::div_mod::lemma_fundamental_div_mod(p, PRG_PAGE as int);
    vstd::arithmetic::div_mod::lemma_fundamental_div_mod(c, CHR_PAGE as int);
    assert(ines_prg_len(raw) == p);
    assert(ines_chr_len(raw) == c);
    assert(!ines_has_trainer(raw));
    assert(ines_prg_start(raw) == 16);
    assert(ines_ok(raw));
    assert_seqs_equal!(raw.subrange(16, 16 + p) == prg);
    assert_seqs_equal!(raw.subrange(16 + p, 16 + p + c) == chr);
}

/// Append every byte of `src` to `dst`.
fn append_all(dst: &mut Vec<u8>, src: &Vec<u8>)
    ensures
        final(dst)@ == old(dst)@ + src@,
{
    let mut i: usize = 0;
    while i < src.len()
        invariant
            i <= src.len(),
            dst@ == old(dst)@ + src@.subrange(0, i as int),
        decreases src.len() - i,
    {
        dst.push(src[i]);
        proof {
            assert_seqs_equal!(dst@ == old(dst)@ + src@.subrange(0, i + 1));
        }
        i += 1;
    }
    proof {
        assert_seqs_equal!(final(dst)@ == old(dst)@ + src@);
    }
}

/// Copy `len` bytes of `src` starting at `start` into a fresh vector.
fn copy_range(src: &Vec<u8>, start: usize, len: usize) -> (r: Vec<u8>)
    requires
        start + len <= src.len(),
    ensures
        r@ == src@.subrange(start as int, (start + len) as int),
{
    let mut out: Vec<u8> = Vec::new();
    let mut i: usize = 0;
    while i < len
        invariant
            start + len <= src.len(),
            i <= len,
            out@.len() == i,
            forall|j: int| 0 <= j < i ==> out@[j] == src@[start + j],
        decreases len - i,
    {
        out.push(src[start + i]);
        i += 1;
    }
    proof {
        assert_seqs_equal!(out@ == src@.subrange(start as int, (start + len) as int));
    }
    out
}

} // verus!
