use nes::rom::Mirroring;
use nes::rom::Rom;
use nes::rom::RomError;

/// A minimal one-PRG-page, one-CHR-page iNES image.
fn sample_image(flags6: u8, flags7: u8) -> Vec<u8> {
    let mut raw = vec![0x4E, 0x45, 0x53, 0x1A, 1, 1, flags6, flags7];
    raw.extend_from_slice(&[0; 8]);
    let mut prg = vec![0u8; 16384];
    prg[0] = 0xA9;
    prg[16383] = 0x7E;
    let mut chr = vec![0u8; 8192];
    chr[0] = 0x11;
    chr[8191] = 0x22;
    raw.extend_from_slice(&prg);
    raw.extend_from_slice(&chr);
    raw
}

#[test]
fn test_rom_parse_fields() {
    let raw = sample_image(0x01, 0x00); // vertical mirroring, mapper 0
    let rom = Rom::new(&raw).unwrap();
    assert_eq!(rom.prg_rom.len(), 16384);
    assert_eq!(rom.chr_rom.len(), 8192);
    assert_eq!(rom.mapper, 0);
    assert_eq!(rom.mirroring, Mirroring::Vertical);
    assert_eq!(rom.prg_rom[0], 0xA9);
    assert_eq!(rom.prg_rom[16383], 0x7E);
    assert_eq!(rom.chr_rom[0], 0x11);
    assert_eq!(rom.chr_rom[8191], 0x22);
}

#[test]
fn test_rom_trainer_is_skipped() {
    let mut raw = vec![0x4E, 0x45, 0x53, 0x1A, 1, 0, 0x04, 0x00];
    raw.extend_from_slice(&[0; 8]);
    raw.extend_from_slice(&[0xAB; 512]); // trainer
    let mut prg = vec![0u8; 16384];
    prg[0] = 0xCD;
    raw.extend_from_slice(&prg);
    let rom = Rom::new(&raw).unwrap();
    assert_eq!(rom.prg_rom[0], 0xCD);
    assert_eq!(rom.chr_rom.len(), 0);
}

#[test]
fn test_rom_round_trip() {
    // Load, serialize the fields, and reload: PRG, CHR, mapper and
    // mirroring come back identical.
    let raw = sample_image(0x01, 0x00);
    let rom = Rom::new(&raw).unwrap();
    let bytes = rom.to_bytes();
    let rom2 = Rom::new(&bytes).unwrap();
    assert_eq!(rom2.prg_rom, rom.prg_rom);
    assert_eq!(rom2.chr_rom, rom.chr_rom);
    assert_eq!(rom2.mapper, rom.mapper);
    assert_eq!(rom2.mirroring, rom.mirroring);
    // with no trainer in the serialized form, the bytes match too
    assert_eq!(bytes, raw);
}

#[test]
fn test_rom_round_trip_four_screen() {
    let raw = sample_image(0x08, 0x00);
    let rom = Rom::new(&raw).unwrap();
    assert_eq!(rom.mirroring, Mirroring::FourScreen);
    let rom2 = Rom::new(&rom.to_bytes()).unwrap();
    assert_eq!(rom2.mirroring, Mirroring::FourScreen);
}

#[test]
fn test_rom_rejects_short_header() {
    let raw = vec![0x4E, 0x45, 0x53];
    match Rom::new(&raw) {
        Ok(_) => panic!("expected an error"),
        Err(e) => assert_eq!(e, RomError::TruncatedRom),
    }
}

#[test]
fn test_rom_rejects_bad_magic() {
    let mut raw = sample_image(0x00, 0x00);
    raw[3] = 0x00;
    match Rom::new(&raw) {
        Ok(_) => panic!("expected an error"),
        Err(e) => assert_eq!(e, RomError::InvalidHeader),
    }
}

#[test]
fn test_rom_rejects_later_version() {
    let raw = sample_image(0x00, 0x08); // iNES 2.0 bits
    match Rom::new(&raw) {
        Ok(_) => panic!("expected an error"),
        Err(e) => assert_eq!(e, RomError::UnsupportedVersion),
    }
}

#[test]
fn test_rom_rejects_unsupported_mapper() {
    let raw = sample_image(0x10, 0x00); // mapper 1
    match Rom::new(&raw) {
        Ok(_) => panic!("expected an error"),
        Err(e) => assert_eq!(e, RomError::UnsupportedMapper(1)),
    }
}

#[test]
fn test_rom_rejects_truncated_body() {
    let mut raw = sample_image(0x00, 0x00);
    raw.truncate(raw.len() - 1);
    match Rom::new(&raw) {
        Ok(_) => panic!("expected an error"),
        Err(e) => assert_eq!(e, RomError::TruncatedRom),
    }
}
