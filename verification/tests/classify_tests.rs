use sc64::guess_save_type;
use sc64::types::SaveType;
use sc64::Error;

const EMPTY_DB: &str = "";

fn image_with_signature(selector_byte: u8) -> Vec<u8> {
    let mut image = vec![0u8; 0x40];
    image[0x3C] = 0x45;
    image[0x3D] = 0x44;
    image[0x3F] = selector_byte;
    image
}

#[test]
fn signature_nibble_three_is_sram() {
    // Bytes 45 44 00 30 at 0x3C..0x40.
    let image = image_with_signature(0x30);
    assert_eq!(guess_save_type(&image, EMPTY_DB), Ok(SaveType::Sram));
}

#[test]
fn signature_nibble_table_is_exact() {
    let cases = [
        (0x10, SaveType::Eeprom4k),
        (0x20, SaveType::Eeprom16k),
        (0x30, SaveType::Sram),
        (0x40, SaveType::SramBanked),
        (0x50, SaveType::Flashram),
        (0x60, SaveType::Sram),
        (0x00, SaveType::NoSave),
        (0x70, SaveType::NoSave),
        (0xF0, SaveType::NoSave),
    ];
    for (byte, expected) in cases {
        assert_eq!(guess_save_type(&image_with_signature(byte), EMPTY_DB), Ok(expected));
    }
}

#[test]
fn truncated_signature_image_selects_nothing() {
    // The signature is present but the image ends before the selector
    // byte: the selector reads as zero.
    let mut image = vec![0u8; 0x3E];
    image[0x3C] = 0x45;
    image[0x3D] = 0x44;
    assert_eq!(guess_save_type(&image, EMPTY_DB), Ok(SaveType::NoSave));
}

#[test]
fn digest_lookup_finds_flashram() {
    // No signature; canonical byte order. The database keys the image's
    // upper-case hex MD5 digest.
    let image: Vec<u8> = (0u8..=255).cycle().take(1024).collect();
    let digest = hex::encode_upper(md5::compute(&image).0);
    let db = format!("[{digest}]\nSaveType=Flash RAM\n");
    assert_eq!(guess_save_type(&image, &db), Ok(SaveType::Flashram));
}

#[test]
fn digest_lookup_maps_every_label() {
    let image = vec![7u8; 300];
    let digest = hex::encode_upper(md5::compute(&image).0);
    let cases = [
        ("Eeprom 4KB", SaveType::Eeprom4k),
        ("Eeprom 16KB", SaveType::Eeprom16k),
        ("SRAM", SaveType::Sram),
        ("Flash RAM", SaveType::Flashram),
        ("Controller Pak", SaveType::NoSave),
    ];
    for (label, expected) in cases {
        let db = format!("[{digest}]\nSaveType={label}\n");
        assert_eq!(guess_save_type(&image, &db), Ok(expected));
    }
}

#[test]
fn digest_is_taken_over_normalized_bytes() {
    // A byte-swapped image must hash the same as its canonical form.
    let canonical: Vec<u8> = vec![0x80, 0x37, 0x12, 0x40, 0xAA, 0xBB, 0xCC, 0xDD];
    let mut swapped = Vec::new();
    for pair in canonical.chunks(2) {
        swapped.push(pair[1]);
        swapped.push(pair[0]);
    }
    assert_eq!(&swapped[0..4], &[0x37, 0x80, 0x40, 0x12]);
    let digest = hex::encode_upper(md5::compute(&canonical).0);
    let db = format!("[{digest}]\nSaveType=SRAM\n");
    assert_eq!(guess_save_type(&swapped, &db), Ok(SaveType::Sram));
}

#[test]
fn missing_entry_or_field_means_no_save() {
    let image = vec![1u8; 64];
    let db = "[0123456789ABCDEF0123456789ABCDEF]\nSaveType=SRAM\n";
    assert_eq!(guess_save_type(&image, db), Ok(SaveType::NoSave));
    let digest = hex::encode_upper(md5::compute(&image).0);
    let db_without_field = format!("[{digest}]\nGoodName=Something\n");
    assert_eq!(guess_save_type(&image, &db_without_field), Ok(SaveType::NoSave));
}

#[test]
fn unparseable_database_is_an_error() {
    let image = vec![1u8; 64];
    // An unclosed section header does not parse.
    let db = "[unterminated\nSaveType=SRAM\n";
    assert_eq!(guess_save_type(&image, db), Err(Error::Domain));
}
