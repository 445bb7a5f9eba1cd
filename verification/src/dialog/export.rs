//! The per-variant export: one line of text for the game to show, written
//! as a file of its own.
//!
//! The line names the speaker in the speaker's color and then gives the
//! variant's text. The file holds a byte-order mark and then the line in
//! UTF-16, every code unit as two bytes with the low byte first.

use crate::dialog::text::{decimal, push_decimal};
use vstd::prelude::*;

verus! {

/// `bincode::ErrorKind`, of which nothing is known but that it is an error.
#[verifier::external_type_specification]
#[verifier::external_body]
pub struct ExBincodeErrorKind(bincode::ErrorKind);

/// The export of one variant: where it is written, and its bytes.
#[derive(Debug)]
pub struct VariantFile {
    pub path: String,
    pub bytes: Vec<u8>,
}

/// What the contracts say of a [`VariantFile`].
pub struct VariantFileView {
    pub path: Seq<char>,
    pub bytes: Seq<u8>,
}

impl View for VariantFile {
    type V = VariantFileView;

    open spec fn view(&self) -> VariantFileView {
        VariantFileView { path: self.path@, bytes: self.bytes@ }
    }
}

/// The line that is exported for a text said by a speaker with this name
/// and color.
pub open spec fn exported_line(color: Seq<char>, name: Seq<char>, text: Seq<char>) -> Seq<char> {
    "<color="@ + color + ">"@ + name + "<color=white>: "@ + text
}

/// Where the export of the variant at `counter` under `label` is written.
pub open spec fn variant_path(directory: Seq<char>, counter: u32, label: Seq<char>) -> Seq<char> {
    directory + "/"@ + decimal(counter as nat) + "_"@ + label + ".txt"@
}

/// The UTF-16 code units of a character: the character itself below
/// `0x10000`, a pair of surrogates from there on.
pub open spec fn utf16_units(c: char) -> Seq<u16> {
    let code = c as u32;
    if code < 0x10000 {
        seq![code as u16]
    } else {
        seq![
            (0xD800 + (code - 0x10000) / 0x400) as u16,
            (0xDC00 + (code - 0x10000) % 0x400) as u16,
        ]
    }
}

/// The two bytes of a code unit, the low byte first.
pub open spec fn unit_bytes(unit: u16) -> Seq<u8> {
    seq![(unit % 256) as u8, (unit / 256) as u8]
}

/// [`unit_bytes`] as a function.
pub open spec fn bytes_of_unit() -> spec_fn(u16) -> Seq<u8> {
    |unit: u16| unit_bytes(unit)
}

/// The bytes of a character: those of its code units, in order.
pub open spec fn char_bytes(c: char) -> Seq<u8> {
    utf16_units(c).map_values(bytes_of_unit()).flatten()
}

/// [`char_bytes`] as a function.
pub open spec fn bytes_of_char() -> spec_fn(char) -> Seq<u8> {
    |c: char| char_bytes(c)
}

/// A text in UTF-16, low byte first, without a byte-order mark.
pub open spec fn utf16le(text: Seq<char>) -> Seq<u8> {
    text.map_values(bytes_of_char()).flatten()
}

/// The byte-order mark of UTF-16 with the low byte first.
pub open spec fn byte_order_mark() -> Seq<u8> {
    seq![255u8, 254u8]
}

/// The bytes of a text file that holds `line`.
pub open spec fn file_bytes(line: Seq<char>) -> Seq<u8> {
    byte_order_mark() + utf16le(line)
}

/// Trusted: `bincode::serialize` on a `u16`.
///
/// Claims that the call succeeds and gives two bytes, the low byte first:
/// the crate's free functions encode integers at their fixed size, little
/// endian, with no limit on the size of the output.
#[verifier::external_body]
fn bincode_u16(unit: u16) -> (r: Result<Vec<u8>, Box<bincode::ErrorKind>>)
    ensures
        r is Ok,
        r->Ok_0@ == unit_bytes(unit),
{
    bincode::serialize(&unit)
}

/// Appends the bytes of one code unit.
fn push_unit(bytes: &mut Vec<u8>, unit: u16)
    ensures
        final(bytes)@ == old(bytes)@ + unit_bytes(unit),
{
    let mut encoded = bincode_u16(unit).unwrap();
    bytes.append(&mut encoded);
}

/// Appends the bytes of one character.
fn push_char(bytes: &mut Vec<u8>, c: char)
    ensures
        final(bytes)@ == old(bytes)@ + char_bytes(c),
{
    let code: u32 = c as u32;
    let ghost none = Seq::<Seq<u8>>::empty();
    if code < 0x10000 {
        let unit: u16 = code as u16;
        push_unit(bytes, unit);
        proof {
            assert(utf16_units(c).map_values(bytes_of_unit()) =~= none.push(unit_bytes(unit)));
            none.lemma_flatten_push(unit_bytes(unit));
        }
    } else {
        let rest: u32 = code - 0x10000;
        let high: u16 = (0xD800 + rest / 0x400) as u16;
        let low: u16 = (0xDC00 + rest % 0x400) as u16;
        push_unit(bytes, high);
        push_unit(bytes, low);
        proof {
            assert(utf16_units(c).map_values(bytes_of_unit()) =~= none.push(unit_bytes(high)).push(
                unit_bytes(low),
            ));
            none.lemma_flatten_push(unit_bytes(high));
            none.push(unit_bytes(high)).lemma_flatten_push(unit_bytes(low));
        }
    }
}

/// The line that is exported for `text` said by a speaker with this name
/// and color.
pub fn compose_line(color: &String, name: &String, text: &String) -> (line: String)
    ensures
        line@ == exported_line(color@, name@, text@),
{
    let mut line = String::from_str("<color=");
    line.append(color.as_str());
    line.append(">");
    line.append(name.as_str());
    line.append("<color=white>: ");
    line.append(text.as_str());
    line
}

/// The path of the export of the variant at `counter` under `label`.
pub fn compose_path(directory: &String, counter: u32, label: &String) -> (path: String)
    ensures
        path@ == variant_path(directory@, counter, label@),
{
    let mut path = directory.clone();
    path.append("/");
    push_decimal(&mut path, counter);
    path.append("_");
    path.append(label.as_str());
    path.append(".txt");
    path
}

/// Encodes a line as the bytes of its text file: the byte-order mark, then
/// the line in UTF-16 with the low byte of each code unit first.
pub fn encode_line(line: &String) -> (bytes: Vec<u8>)
    ensures
        bytes@ == file_bytes(line@),
{
    let mut bytes: Vec<u8> = Vec::new();
    bytes.push(255);
    bytes.push(254);
    for c in it: line.as_str().chars()
        invariant
            it.seq() == line@,
            bytes@ == byte_order_mark() + utf16le(line@.take(it.index() as int)),
    {
        proof {
            let done = line@.take(it.index() as int);
            assert(line@.take(it.index() + 1) =~= done.push(c));
            done.lemma_push_map_commute(bytes_of_char(), c);
            done.map_values(bytes_of_char()).lemma_flatten_push(char_bytes(c));
        }
        push_char(&mut bytes, c);
    }
    assert(line@.take(line@.len() as int) =~= line@);
    bytes
}

} // verus!
