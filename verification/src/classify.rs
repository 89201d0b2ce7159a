//! Save-type classification of a program image: an embedded header
//! signature decides directly; otherwise the whole byte-order-normalized
//! image is hashed and the digest looked up in a bundled key-value
//! database handed in as text.

use vstd::prelude::*;
use crate::bytes::{apply_swap, detect_swap, spec_detect_swap, spec_swap};
use crate::error::Error;
use crate::types::SaveType;

verus! {

/// A parsed database document: section name to key to value.
pub type DbDoc = Map<Seq<char>, Map<Seq<char>, Seq<char>>>;

#[verifier::external_type_specification]
#[verifier::external_body]
pub struct ExIni(ini::Ini);

/// What a parsed database holds: each section's keyed values.
pub uninterp spec fn ini_doc(doc: ini::Ini) -> DbDoc;

/// What parsing a database text yields, if it parses at all.
pub uninterp spec fn parsed_ini(text: Seq<char>) -> Option<DbDoc>;

/// The 16-byte MD5 digest of a byte sequence.
pub uninterp spec fn md5_digest(data: Seq<u8>) -> Seq<u8>;

/// Relies on ini::Ini::load_from_str: parsing an INI document is a
/// function of the text alone.
#[verifier::external_body]
fn ini_load(text: &str) -> (r: Option<ini::Ini>)
    ensures
        match r {
            Some(doc) => parsed_ini(text@) == Some(ini_doc(doc)),
            None => parsed_ini(text@) is None,
        },
{
    match ini::Ini::load_from_str(text) {
        Ok(doc) => Some(doc),
        Err(_) => None,
    }
}

/// Relies on ini::Ini::get_from: the first value under `key` in the
/// section named `section`, if both exist.
#[verifier::external_body]
fn ini_get_from(doc: &ini::Ini, section: &str, key: &str) -> (r: Option<String>)
    ensures
        match r {
            Some(v) => ini_doc(*doc).contains_key(section@) && ini_doc(*doc)[section@].contains_key(
                key@,
            ) && v@ == ini_doc(*doc)[section@][key@],
            None => !(ini_doc(*doc).contains_key(section@)
                && ini_doc(*doc)[section@].contains_key(key@)),
        },
{
    doc.get_from(Some(section), key).map(|s| s.to_owned())
}

/// Relies on md5::compute: the 16-byte digest is a function of the input
/// bytes alone.
#[verifier::external_body]
fn md5_of(data: &[u8]) -> (r: Vec<u8>)
    ensures
        r@ == md5_digest(data@),
        r@.len() == 16,
{
    md5::compute(data).0.to_vec()
}

/// The upper-case hex digit of a value below sixteen.
pub open spec fn spec_hex_digit(n: u8) -> char
    recommends
        n < 16,
{
    if n == 0 {
        '0'
    } else if n == 1 {
        '1'
    } else if n == 2 {
        '2'
    } else if n == 3 {
        '3'
    } else if n == 4 {
        '4'
    } else if n == 5 {
        '5'
    } else if n == 6 {
        '6'
    } else if n == 7 {
        '7'
    } else if n == 8 {
        '8'
    } else if n == 9 {
        '9'
    } else if n == 10 {
        'A'
    } else if n == 11 {
        'B'
    } else if n == 12 {
        'C'
    } else if n == 13 {
        'D'
    } else if n == 14 {
        'E'
    } else {
        'F'
    }
}

/// Upper-case hex rendering of a byte sequence: two digits per byte, most
/// significant first.
pub open spec fn spec_hex_upper(data: Seq<u8>) -> Seq<char>
    decreases data.len(),
{
    if data.len() == 0 {
        Seq::empty()
    } else {
        seq![spec_hex_digit(data[0] / 16), spec_hex_digit(data[0] % 16)] + spec_hex_upper(
            data.skip(1),
        )
    }
}

/// Relies on hex::encode_upper: each byte becomes two upper-case hex
/// digits, most significant first.
#[verifier::external_body]
fn hex_upper(data: &[u8]) -> (r: String)
    ensures
        r@ == spec_hex_upper(data@),
{
    hex::encode_upper(data)
}

/// The embedded-signature save table: the high nibble of the byte after
/// the signature selects the save type; two distinct codes map to SRAM.
pub open spec fn spec_save_type_from_nibble(n: u8) -> SaveType {
    match n {
        1u8 => SaveType::Eeprom4k,
        2u8 => SaveType::Eeprom16k,
        3u8 => SaveType::Sram,
        4u8 => SaveType::SramBanked,
        5u8 => SaveType::Flashram,
        6u8 => SaveType::Sram,
        _ => SaveType::NoSave,
    }
}

pub fn save_type_from_nibble(n: u8) -> (r: SaveType)
    ensures
        r == spec_save_type_from_nibble(n),
{
    match n {
        1u8 => SaveType::Eeprom4k,
        2u8 => SaveType::Eeprom16k,
        3u8 => SaveType::Sram,
        4u8 => SaveType::SramBanked,
        5u8 => SaveType::Flashram,
        6u8 => SaveType::Sram,
        _ => SaveType::NoSave,
    }
}

/// The image carries the two-byte "ED" signature at its fixed offset.
pub open spec fn spec_has_save_signature(image: Seq<u8>) -> bool {
    image.len() >= 0x3E && image[0x3C] == 0x45 && image[0x3D] == 0x44
}

/// The byte following the signature, taken as zero when the image ends
/// before it.
pub open spec fn spec_signature_selector(image: Seq<u8>) -> u8 {
    if image.len() > 0x3F {
        image[0x3F] / 16
    } else {
        0
    }
}

/// The save type named by a database value string; any string outside the
/// fixed set means no save storage.
pub open spec fn spec_save_type_of_label(s: Seq<char>) -> SaveType {
    if s == "Eeprom 4KB"@ {
        SaveType::Eeprom4k
    } else if s == "Eeprom 16KB"@ {
        SaveType::Eeprom16k
    } else if s == "SRAM"@ {
        SaveType::Sram
    } else if s == "Flash RAM"@ {
        SaveType::Flashram
    } else {
        SaveType::NoSave
    }
}

pub fn save_type_of_label(label: &String) -> (r: SaveType)
    ensures
        r == spec_save_type_of_label(label@),
{
    if *label == "Eeprom 4KB".to_owned() {
        SaveType::Eeprom4k
    } else if *label == "Eeprom 16KB".to_owned() {
        SaveType::Eeprom16k
    } else if *label == "SRAM".to_owned() {
        SaveType::Sram
    } else if *label == "Flash RAM".to_owned() {
        SaveType::Flashram
    } else {
        SaveType::NoSave
    }
}

/// What a database document says for a digest: the save type its
/// "SaveType" value names, or none when the entry or the value is absent.
pub open spec fn spec_db_lookup(doc: DbDoc, digest: Seq<char>) -> SaveType {
    if doc.contains_key(digest) && doc[digest].contains_key("SaveType"@) {
        spec_save_type_of_label(doc[digest]["SaveType"@])
    } else {
        SaveType::NoSave
    }
}

/// Looks one digest up in a parsed database.
pub fn save_type_from_db(doc: &ini::Ini, digest: &str) -> (r: SaveType)
    ensures
        r == spec_db_lookup(ini_doc(*doc), digest@),
{
    match ini_get_from(doc, digest, "SaveType") {
        Some(label) => save_type_of_label(&label),
        None => SaveType::NoSave,
    }
}

/// How an image classifies against a database text: the embedded signature
/// decides directly; otherwise the upper-case hex MD5 digest of the
/// byte-order-normalized image is looked up, and an unparseable database
/// is a domain error.
pub open spec fn spec_guess_save_type(image: Seq<u8>, database: Seq<char>) -> Result<
    SaveType,
    Error,
> {
    if spec_has_save_signature(image) {
        Ok(spec_save_type_from_nibble(spec_signature_selector(image)))
    } else {
        match parsed_ini(database) {
            Some(doc) => Ok(
                spec_db_lookup(
                    doc,
                    spec_hex_upper(md5_digest(spec_swap(spec_detect_swap(image), image))),
                ),
            ),
            None => Err(Error::Domain),
        }
    }
}

/// Classifies a whole program image. Pure with respect to the device: the
/// caller is responsible for applying the result.
pub fn guess_save_type(image: &[u8], database: &str) -> (r: Result<SaveType, Error>)
    ensures
        r == spec_guess_save_type(image@, database@),
{
    if image.len() >= 0x3E && image[0x3C] == 0x45 && image[0x3D] == 0x44 {
        let selector: u8 = if image.len() > 0x3F {
            image[0x3F] / 16
        } else {
            0
        };
        return Ok(save_type_from_nibble(selector));
    }
    let kind = detect_swap(image);
    let mut data = vstd::slice::slice_to_vec(image);
    apply_swap(kind, &mut data);
    let digest = md5_of(data.as_slice());
    let digest_hex = hex_upper(digest.as_slice());
    match ini_load(database) {
        Some(doc) => Ok(save_type_from_db(&doc, digest_hex.as_str())),
        None => Err(Error::Domain),
    }
}

} // verus!
