//! The built-in 8 by 8 font: one byte per glyph row, the leftmost pixel in
//! the highest bit.

use vstd::prelude::*;

verus! {

/// The rows of a glyph without any pixel.
pub open spec fn blank_glyph() -> Seq<u8> {
    seq![0x00u8, 0x00u8, 0x00u8, 0x00u8, 0x00u8, 0x00u8, 0x00u8, 0x00u8]
}

/// Whether the font has a glyph for the byte: the printable ASCII
/// characters from the space to `z`, but for the five between `Z` and `a`.
pub open spec fn has_glyph(c: u8) -> bool {
    (0x20 <= c <= 0x5A) || (0x61 <= c <= 0x7A)
}

/// The eight rows of the glyph for a byte, top row first. A byte without a
/// glyph has the blank one.
pub open spec fn glyph_rows(c: u8) -> Seq<u8> {
    match c {
        0x20 => blank_glyph(),  // space
        0x21 => seq![0x30u8, 0x78u8, 0x78u8, 0x30u8, 0x30u8, 0x00u8, 0x30u8, 0x00u8],  // exclamation mark
        0x22 => seq![0x6Cu8, 0x6Cu8, 0x6Cu8, 0x00u8, 0x00u8, 0x00u8, 0x00u8, 0x00u8],  // double quote
        0x23 => seq![0x6Cu8, 0x6Cu8, 0xFEu8, 0x6Cu8, 0xFEu8, 0x6Cu8, 0x6Cu8, 0x00u8],  // hash
        0x24 => seq![0x30u8, 0x7Cu8, 0xC0u8, 0x78u8, 0x0Cu8, 0xF8u8, 0x30u8, 0x00u8],  // dollar
        0x25 => seq![0x00u8, 0xC6u8, 0xCCu8, 0x18u8, 0x30u8, 0x66u8, 0xC6u8, 0x00u8],  // percent
        0x26 => seq![0x38u8, 0x6Cu8, 0x38u8, 0x76u8, 0xDCu8, 0xCCu8, 0x76u8, 0x00u8],  // ampersand
        0x27 => seq![0x60u8, 0x60u8, 0xC0u8, 0x00u8, 0x00u8, 0x00u8, 0x00u8, 0x00u8],  // apostrophe
        0x28 => seq![0x18u8, 0x30u8, 0x60u8, 0x60u8, 0x60u8, 0x30u8, 0x18u8, 0x00u8],  // left parenthesis
        0x29 => seq![0x60u8, 0x30u8, 0x18u8, 0x18u8, 0x18u8, 0x30u8, 0x60u8, 0x00u8],  // right parenthesis
        0x2A => seq![0x00u8, 0x66u8, 0x3Cu8, 0xFFu8, 0x3Cu8, 0x66u8, 0x00u8, 0x00u8],  // asterisk
        0x2B => seq![0x00u8, 0x30u8, 0x30u8, 0xFCu8, 0x30u8, 0x30u8, 0x00u8, 0x00u8],  // plus
        0x2C => seq![0x00u8, 0x00u8, 0x00u8, 0x00u8, 0x00u8, 0x30u8, 0x30u8, 0x60u8],  // comma
        0x2D => seq![0x00u8, 0x00u8, 0x00u8, 0xFCu8, 0x00u8, 0x00u8, 0x00u8, 0x00u8],  // minus
        0x2E => seq![0x00u8, 0x00u8, 0x00u8, 0x00u8, 0x00u8, 0x30u8, 0x30u8, 0x00u8],  // full stop
        0x2F => seq![0x06u8, 0x0Cu8, 0x18u8, 0x30u8, 0x60u8, 0xC0u8, 0x80u8, 0x00u8],  // slash
        0x30 => seq![0x7Cu8, 0xC6u8, 0xCEu8, 0xDEu8, 0xF6u8, 0xE6u8, 0x7Cu8, 0x00u8],  // 0
        0x31 => seq![0x30u8, 0x70u8, 0x30u8, 0x30u8, 0x30u8, 0x30u8, 0xFCu8, 0x00u8],  // 1
        0x32 => seq![0x78u8, 0xCCu8, 0x0Cu8, 0x38u8, 0x60u8, 0xCCu8, 0xFCu8, 0x00u8],  // 2
        0x33 => seq![0x78u8, 0xCCu8, 0x0Cu8, 0x38u8, 0x0Cu8, 0xCCu8, 0x78u8, 0x00u8],  // 3
        0x34 => seq![0x1Cu8, 0x3Cu8, 0x6Cu8, 0xCCu8, 0xFEu8, 0x0Cu8, 0x1Eu8, 0x00u8],  // 4
        0x35 => seq![0xFCu8, 0xC0u8, 0xF8u8, 0x0Cu8, 0x0Cu8, 0xCCu8, 0x78u8, 0x00u8],  // 5
        0x36 => seq![0x38u8, 0x60u8, 0xC0u8, 0xF8u8, 0xCCu8, 0xCCu8, 0x78u8, 0x00u8],  // 6
        0x37 => seq![0xFCu8, 0xCCu8, 0x0Cu8, 0x18u8, 0x30u8, 0x30u8, 0x30u8, 0x00u8],  // 7
        0x38 => seq![0x78u8, 0xCCu8, 0xCCu8, 0x78u8, 0xCCu8, 0xCCu8, 0x78u8, 0x00u8],  // 8
        0x39 => seq![0x78u8, 0xCCu8, 0xCCu8, 0x7Cu8, 0x0Cu8, 0x18u8, 0x70u8, 0x00u8],  // 9
        0x3A => seq![0x00u8, 0x30u8, 0x30u8, 0x00u8, 0x00u8, 0x30u8, 0x30u8, 0x00u8],  // colon
        0x3B => seq![0x00u8, 0x30u8, 0x30u8, 0x00u8, 0x00u8, 0x30u8, 0x30u8, 0x60u8],  // semicolon
        0x3C => seq![0x18u8, 0x30u8, 0x60u8, 0xC0u8, 0x60u8, 0x30u8, 0x18u8, 0x00u8],  // less than
        0x3D => seq![0x00u8, 0x00u8, 0xFCu8, 0x00u8, 0x00u8, 0xFCu8, 0x00u8, 0x00u8],  // equals
        0x3E => seq![0x60u8, 0x30u8, 0x18u8, 0x0Cu8, 0x18u8, 0x30u8, 0x60u8, 0x00u8],  // greater than
        0x3F => seq![0x78u8, 0xCCu8, 0x0Cu8, 0x18u8, 0x30u8, 0x00u8, 0x30u8, 0x00u8],  // question mark
        0x40 => seq![0x7Cu8, 0xC6u8, 0xDEu8, 0xDEu8, 0xDEu8, 0xC0u8, 0x78u8, 0x00u8],  // at sign
        0x41 => seq![0x30u8, 0x78u8, 0xCCu8, 0xCCu8, 0xFCu8, 0xCCu8, 0xCCu8, 0x00u8],  // A
        0x42 => seq![0xFCu8, 0x66u8, 0x66u8, 0x7Cu8, 0x66u8, 0x66u8, 0xFCu8, 0x00u8],  // B
        0x43 => seq![0x3Cu8, 0x66u8, 0xC0u8, 0xC0u8, 0xC0u8, 0x66u8, 0x3Cu8, 0x00u8],  // C
        0x44 => seq![0xF8u8, 0x6Cu8, 0x66u8, 0x66u8, 0x66u8, 0x6Cu8, 0xF8u8, 0x00u8],  // D
        0x45 => seq![0xFEu8, 0x62u8, 0x68u8, 0x78u8, 0x68u8, 0x62u8, 0xFEu8, 0x00u8],  // E
        0x46 => seq![0xFEu8, 0x62u8, 0x68u8, 0x78u8, 0x68u8, 0x60u8, 0xF0u8, 0x00u8],  // F
        0x47 => seq![0x3Cu8, 0x66u8, 0xC0u8, 0xC0u8, 0xCEu8, 0x66u8, 0x3Eu8, 0x00u8],  // G
        0x48 => seq![0xCCu8, 0xCCu8, 0xCCu8, 0xFCu8, 0xCCu8, 0xCCu8, 0xCCu8, 0x00u8],  // H
        0x49 => seq![0x78u8, 0x30u8, 0x30u8, 0x30u8, 0x30u8, 0x30u8, 0x78u8, 0x00u8],  // I
        0x4A => seq![0x1Eu8, 0x0Cu8, 0x0Cu8, 0x0Cu8, 0xCCu8, 0xCCu8, 0x78u8, 0x00u8],  // J
        0x4B => seq![0xE6u8, 0x66u8, 0x6Cu8, 0x78u8, 0x6Cu8, 0x66u8, 0xE6u8, 0x00u8],  // K
        0x4C => seq![0xF0u8, 0x60u8, 0x60u8, 0x60u8, 0x62u8, 0x66u8, 0xFEu8, 0x00u8],  // L
        0x4D => seq![0xC6u8, 0xEEu8, 0xFEu8, 0xFEu8, 0xD6u8, 0xC6u8, 0xC6u8, 0x00u8],  // M
        0x4E => seq![0xC6u8, 0xE6u8, 0xF6u8, 0xDEu8, 0xCEu8, 0xC6u8, 0xC6u8, 0x00u8],  // N
        0x4F => seq![0x38u8, 0x6Cu8, 0xC6u8, 0xC6u8, 0xC6u8, 0x6Cu8, 0x38u8, 0x00u8],  // O
        0x50 => seq![0xFCu8, 0x66u8, 0x66u8, 0x7Cu8, 0x60u8, 0x60u8, 0xF0u8, 0x00u8],  // P
        0x51 => seq![0x78u8, 0xCCu8, 0xCCu8, 0xCCu8, 0xDCu8, 0x78u8, 0x1Cu8, 0x00u8],  // Q
        0x52 => seq![0xFCu8, 0x66u8, 0x66u8, 0x7Cu8, 0x6Cu8, 0x66u8, 0xE6u8, 0x00u8],  // R
        0x53 => seq![0x78u8, 0xCCu8, 0xE0u8, 0x70u8, 0x1Cu8, 0xCCu8, 0x78u8, 0x00u8],  // S
        0x54 => seq![0xFCu8, 0xB4u8, 0x30u8, 0x30u8, 0x30u8, 0x30u8, 0x78u8, 0x00u8],  // T
        0x55 => seq![0xCCu8, 0xCCu8, 0xCCu8, 0xCCu8, 0xCCu8, 0xCCu8, 0xFCu8, 0x00u8],  // U
        0x56 => seq![0xCCu8, 0xCCu8, 0xCCu8, 0xCCu8, 0xCCu8, 0x78u8, 0x30u8, 0x00u8],  // V
        0x57 => seq![0xC6u8, 0xC6u8, 0xC6u8, 0xD6u8, 0xFEu8, 0xEEu8, 0xC6u8, 0x00u8],  // W
        0x58 => seq![0xC6u8, 0xC6u8, 0x6Cu8, 0x38u8, 0x38u8, 0x6Cu8, 0xC6u8, 0x00u8],  // X
        0x59 => seq![0xCCu8, 0xCCu8, 0xCCu8, 0x78u8, 0x30u8, 0x30u8, 0x78u8, 0x00u8],  // Y
        0x5A => seq![0xFEu8, 0xC6u8, 0x8Cu8, 0x18u8, 0x32u8, 0x66u8, 0xFEu8, 0x00u8],  // Z
        0x61 => seq![0x00u8, 0x00u8, 0x78u8, 0x0Cu8, 0x7Cu8, 0xCCu8, 0x76u8, 0x00u8],  // a
        0x62 => seq![0xE0u8, 0x60u8, 0x60u8, 0x7Cu8, 0x66u8, 0x66u8, 0xDCu8, 0x00u8],  // b
        0x63 => seq![0x00u8, 0x00u8, 0x78u8, 0xCCu8, 0xC0u8, 0xCCu8, 0x78u8, 0x00u8],  // c
        0x64 => seq![0x1Cu8, 0x0Cu8, 0x0Cu8, 0x7Cu8, 0xCCu8, 0xCCu8, 0x76u8, 0x00u8],  // d
        0x65 => seq![0x00u8, 0x00u8, 0x78u8, 0xCCu8, 0xFCu8, 0xC0u8, 0x78u8, 0x00u8],  // e
        0x66 => seq![0x38u8, 0x6Cu8, 0x60u8, 0xF0u8, 0x60u8, 0x60u8, 0xF0u8, 0x00u8],  // f
        0x67 => seq![0x00u8, 0x00u8, 0x76u8, 0xCCu8, 0xCCu8, 0x7Cu8, 0x0Cu8, 0xF8u8],  // g
        0x68 => seq![0xE0u8, 0x60u8, 0x6Cu8, 0x76u8, 0x66u8, 0x66u8, 0xE6u8, 0x00u8],  // h
        0x69 => seq![0x30u8, 0x00u8, 0x70u8, 0x30u8, 0x30u8, 0x30u8, 0x78u8, 0x00u8],  // i
        0x6A => seq![0x0Cu8, 0x00u8, 0x0Cu8, 0x0Cu8, 0x0Cu8, 0xCCu8, 0xCCu8, 0x78u8],  // j
        0x6B => seq![0xE0u8, 0x60u8, 0x66u8, 0x6Cu8, 0x78u8, 0x6Cu8, 0xE6u8, 0x00u8],  // k
        0x6C => seq![0x70u8, 0x30u8, 0x30u8, 0x30u8, 0x30u8, 0x30u8, 0x78u8, 0x00u8],  // l
        0x6D => seq![0x00u8, 0x00u8, 0xCCu8, 0xFEu8, 0xFEu8, 0xD6u8, 0xC6u8, 0x00u8],  // m
        0x6E => seq![0x00u8, 0x00u8, 0xF8u8, 0xCCu8, 0xCCu8, 0xCCu8, 0xCCu8, 0x00u8],  // n
        0x6F => seq![0x00u8, 0x00u8, 0x78u8, 0xCCu8, 0xCCu8, 0xCCu8, 0x78u8, 0x00u8],  // o
        0x70 => seq![0x00u8, 0x00u8, 0xDCu8, 0x66u8, 0x66u8, 0x7Cu8, 0x60u8, 0xF0u8],  // p
        0x71 => seq![0x00u8, 0x00u8, 0x76u8, 0xCCu8, 0xCCu8, 0x7Cu8, 0x0Cu8, 0x1Eu8],  // q
        0x72 => seq![0x00u8, 0x00u8, 0xDCu8, 0x76u8, 0x66u8, 0x60u8, 0xF0u8, 0x00u8],  // r
        0x73 => seq![0x00u8, 0x00u8, 0x7Cu8, 0xC0u8, 0x78u8, 0x0Cu8, 0xF8u8, 0x00u8],  // s
        0x74 => seq![0x10u8, 0x30u8, 0x7Cu8, 0x30u8, 0x30u8, 0x34u8, 0x18u8, 0x00u8],  // t
        0x75 => seq![0x00u8, 0x00u8, 0xCCu8, 0xCCu8, 0xCCu8, 0xCCu8, 0x76u8, 0x00u8],  // u
        0x76 => seq![0x00u8, 0x00u8, 0xCCu8, 0xCCu8, 0xCCu8, 0x78u8, 0x30u8, 0x00u8],  // v
        0x77 => seq![0x00u8, 0x00u8, 0xC6u8, 0xD6u8, 0xFEu8, 0xFEu8, 0x6Cu8, 0x00u8],  // w
        0x78 => seq![0x00u8, 0x00u8, 0xC6u8, 0x6Cu8, 0x38u8, 0x6Cu8, 0xC6u8, 0x00u8],  // x
        0x79 => seq![0x00u8, 0x00u8, 0xCCu8, 0xCCu8, 0xCCu8, 0x7Cu8, 0x0Cu8, 0xF8u8],  // y
        0x7A => seq![0x00u8, 0x00u8, 0xFCu8, 0x98u8, 0x30u8, 0x64u8, 0xFCu8, 0x00u8],  // z
        _ => blank_glyph(),
    }
}

/// Every glyph has eight rows.
pub proof fn lemma_glyph_rows_len(c: u8)
    ensures
        glyph_rows(c).len() == 8,
        !has_glyph(c) ==> glyph_rows(c) == blank_glyph(),
{
}

/// Looks up the glyph for a byte. Bytes without a glyph give the blank
/// glyph.
pub fn get_font_char(c: u8) -> (rows: [u8; 8])
    ensures
        rows@ == glyph_rows(c),
{
    let rows: [u8; 8] = match c {
        0x20 => [0x00, 0x00, 0x00, 0x00, 0x00, 0x00, 0x00, 0x00],  // space
        0x21 => [0x30, 0x78, 0x78, 0x30, 0x30, 0x00, 0x30, 0x00],  // exclamation mark
        0x22 => [0x6C, 0x6C, 0x6C, 0x00, 0x00, 0x00, 0x00, 0x00],  // double quote
        0x23 => [0x6C, 0x6C, 0xFE, 0x6C, 0xFE, 0x6C, 0x6C, 0x00],  // hash
        0x24 => [0x30, 0x7C, 0xC0, 0x78, 0x0C, 0xF8, 0x30, 0x00],  // dollar
        0x25 => [0x00, 0xC6, 0xCC, 0x18, 0x30, 0x66, 0xC6, 0x00],  // percent
        0x26 => [0x38, 0x6C, 0x38, 0x76, 0xDC, 0xCC, 0x76, 0x00],  // ampersand
        0x27 => [0x60, 0x60, 0xC0, 0x00, 0x00, 0x00, 0x00, 0x00],  // apostrophe
        0x28 => [0x18, 0x30, 0x60, 0x60, 0x60, 0x30, 0x18, 0x00],  // left parenthesis
        0x29 => [0x60, 0x30, 0x18, 0x18, 0x18, 0x30, 0x60, 0x00],  // right parenthesis
        0x2A => [0x00, 0x66, 0x3C, 0xFF, 0x3C, 0x66, 0x00, 0x00],  // asterisk
        0x2B => [0x00, 0x30, 0x30, 0xFC, 0x30, 0x30, 0x00, 0x00],  // plus
        0x2C => [0x00, 0x00, 0x00, 0x00, 0x00, 0x30, 0x30, 0x60],  // comma
        0x2D => [0x00, 0x00, 0x00, 0xFC, 0x00, 0x00, 0x00, 0x00],  // minus
        0x2E => [0x00, 0x00, 0x00, 0x00, 0x00, 0x30, 0x30, 0x00],  // full stop
        0x2F => [0x06, 0x0C, 0x18, 0x30, 0x60, 0xC0, 0x80, 0x00],  // slash
        0x30 => [0x7C, 0xC6, 0xCE, 0xDE, 0xF6, 0xE6, 0x7C, 0x00],  // 0
        0x31 => [0x30, 0x70, 0x30, 0x30, 0x30, 0x30, 0xFC, 0x00],  // 1
        0x32 => [0x78, 0xCC, 0x0C, 0x38, 0x60, 0xCC, 0xFC, 0x00],  // 2
        0x33 => [0x78, 0xCC, 0x0C, 0x38, 0x0C, 0xCC, 0x78, 0x00],  // 3
        0x34 => [0x1C, 0x3C, 0x6C, 0xCC, 0xFE, 0x0C, 0x1E, 0x00],  // 4
        0x35 => [0xFC, 0xC0, 0xF8, 0x0C, 0x0C, 0xCC, 0x78, 0x00],  // 5
        0x36 => [0x38, 0x60, 0xC0, 0xF8, 0xCC, 0xCC, 0x78, 0x00],  // 6
        0x37 => [0xFC, 0xCC, 0x0C, 0x18, 0x30, 0x30, 0x30, 0x00],  // 7
        0x38 => [0x78, 0xCC, 0xCC, 0x78, 0xCC, 0xCC, 0x78, 0x00],  // 8
        0x39 => [0x78, 0xCC, 0xCC, 0x7C, 0x0C, 0x18, 0x70, 0x00],  // 9
        0x3A => [0x00, 0x30, 0x30, 0x00, 0x00, 0x30, 0x30, 0x00],  // colon
        0x3B => [0x00, 0x30, 0x30, 0x00, 0x00, 0x30, 0x30, 0x60],  // semicolon
        0x3C => [0x18, 0x30, 0x60, 0xC0, 0x60, 0x30, 0x18, 0x00],  // less than
        0x3D => [0x00, 0x00, 0xFC, 0x00, 0x00, 0xFC, 0x00, 0x00],  // equals
        0x3E => [0x60, 0x30, 0x18, 0x0C, 0x18, 0x30, 0x60, 0x00],  // greater than
        0x3F => [0x78, 0xCC, 0x0C, 0x18, 0x30, 0x00, 0x30, 0x00],  // question mark
        0x40 => [0x7C, 0xC6, 0xDE, 0xDE, 0xDE, 0xC0, 0x78, 0x00],  // at sign
        0x41 => [0x30, 0x78, 0xCC, 0xCC, 0xFC, 0xCC, 0xCC, 0x00],  // A
        0x42 => [0xFC, 0x66, 0x66, 0x7C, 0x66, 0x66, 0xFC, 0x00],  // B
        0x43 => [0x3C, 0x66, 0xC0, 0xC0, 0xC0, 0x66, 0x3C, 0x00],  // C
        0x44 => [0xF8, 0x6C, 0x66, 0x66, 0x66, 0x6C, 0xF8, 0x00],  // D
        0x45 => [0xFE, 0x62, 0x68, 0x78, 0x68, 0x62, 0xFE, 0x00],  // E
        0x46 => [0xFE, 0x62, 0x68, 0x78, 0x68, 0x60, 0xF0, 0x00],  // F
        0x47 => [0x3C, 0x66, 0xC0, 0xC0, 0xCE, 0x66, 0x3E, 0x00],  // G
        0x48 => [0xCC, 0xCC, 0xCC, 0xFC, 0xCC, 0xCC, 0xCC, 0x00],  // H
        0x49 => [0x78, 0x30, 0x30, 0x30, 0x30, 0x30, 0x78, 0x00],  // I
        0x4A => [0x1E, 0x0C, 0x0C, 0x0C, 0xCC, 0xCC, 0x78, 0x00],  // J
        0x4B => [0xE6, 0x66, 0x6C, 0x78, 0x6C, 0x66, 0xE6, 0x00],  // K
        0x4C => [0xF0, 0x60, 0x60, 0x60, 0x62, 0x66, 0xFE, 0x00],  // L
        0x4D => [0xC6, 0xEE, 0xFE, 0xFE, 0xD6, 0xC6, 0xC6, 0x00],  // M
        0x4E => [0xC6, 0xE6, 0xF6, 0xDE, 0xCE, 0xC6, 0xC6, 0x00],  // N
        0x4F => [0x38, 0x6C, 0xC6, 0xC6, 0xC6, 0x6C, 0x38, 0x00],  // O
        0x50 => [0xFC, 0x66, 0x66, 0x7C, 0x60, 0x60, 0xF0, 0x00],  // P
        0x51 => [0x78, 0xCC, 0xCC, 0xCC, 0xDC, 0x78, 0x1C, 0x00],  // Q
        0x52 => [0xFC, 0x66, 0x66, 0x7C, 0x6C, 0x66, 0xE6, 0x00],  // R
        0x53 => [0x78, 0xCC, 0xE0, 0x70, 0x1C, 0xCC, 0x78, 0x00],  // S
        0x54 => [0xFC, 0xB4, 0x30, 0x30, 0x30, 0x30, 0x78, 0x00],  // T
        0x55 => [0xCC, 0xCC, 0xCC, 0xCC, 0xCC, 0xCC, 0xFC, 0x00],  // U
        0x56 => [0xCC, 0xCC, 0xCC, 0xCC, 0xCC, 0x78, 0x30, 0x00],  // V
        0x57 => [0xC6, 0xC6, 0xC6, 0xD6, 0xFE, 0xEE, 0xC6, 0x00],  // W
        0x58 => [0xC6, 0xC6, 0x6C, 0x38, 0x38, 0x6C, 0xC6, 0x00],  // X
        0x59 => [0xCC, 0xCC, 0xCC, 0x78, 0x30, 0x30, 0x78, 0x00],  // Y
        0x5A => [0xFE, 0xC6, 0x8C, 0x18, 0x32, 0x66, 0xFE, 0x00],  // Z
        0x61 => [0x00, 0x00, 0x78, 0x0C, 0x7C, 0xCC, 0x76, 0x00],  // a
        0x62 => [0xE0, 0x60, 0x60, 0x7C, 0x66, 0x66, 0xDC, 0x00],  // b
        0x63 => [0x00, 0x00, 0x78, 0xCC, 0xC0, 0xCC, 0x78, 0x00],  // c
        0x64 => [0x1C, 0x0C, 0x0C, 0x7C, 0xCC, 0xCC, 0x76, 0x00],  // d
        0x65 => [0x00, 0x00, 0x78, 0xCC, 0xFC, 0xC0, 0x78, 0x00],  // e
        0x66 => [0x38, 0x6C, 0x60, 0xF0, 0x60, 0x60, 0xF0, 0x00],  // f
        0x67 => [0x00, 0x00, 0x76, 0xCC, 0xCC, 0x7C, 0x0C, 0xF8],  // g
        0x68 => [0xE0, 0x60, 0x6C, 0x76, 0x66, 0x66, 0xE6, 0x00],  // h
        0x69 => [0x30, 0x00, 0x70, 0x30, 0x30, 0x30, 0x78, 0x00],  // i
        0x6A => [0x0C, 0x00, 0x0C, 0x0C, 0x0C, 0xCC, 0xCC, 0x78],  // j
        0x6B => [0xE0, 0x60, 0x66, 0x6C, 0x78, 0x6C, 0xE6, 0x00],  // k
        0x6C => [0x70, 0x30, 0x30, 0x30, 0x30, 0x30, 0x78, 0x00],  // l
        0x6D => [0x00, 0x00, 0xCC, 0xFE, 0xFE, 0xD6, 0xC6, 0x00],  // m
        0x6E => [0x00, 0x00, 0xF8, 0xCC, 0xCC, 0xCC, 0xCC, 0x00],  // n
        0x6F => [0x00, 0x00, 0x78, 0xCC, 0xCC, 0xCC, 0x78, 0x00],  // o
        0x70 => [0x00, 0x00, 0xDC, 0x66, 0x66, 0x7C, 0x60, 0xF0],  // p
        0x71 => [0x00, 0x00, 0x76, 0xCC, 0xCC, 0x7C, 0x0C, 0x1E],  // q
        0x72 => [0x00, 0x00, 0xDC, 0x76, 0x66, 0x60, 0xF0, 0x00],  // r
        0x73 => [0x00, 0x00, 0x7C, 0xC0, 0x78, 0x0C, 0xF8, 0x00],  // s
        0x74 => [0x10, 0x30, 0x7C, 0x30, 0x30, 0x34, 0x18, 0x00],  // t
        0x75 => [0x00, 0x00, 0xCC, 0xCC, 0xCC, 0xCC, 0x76, 0x00],  // u
        0x76 => [0x00, 0x00, 0xCC, 0xCC, 0xCC, 0x78, 0x30, 0x00],  // v
        0x77 => [0x00, 0x00, 0xC6, 0xD6, 0xFE, 0xFE, 0x6C, 0x00],  // w
        0x78 => [0x00, 0x00, 0xC6, 0x6C, 0x38, 0x6C, 0xC6, 0x00],  // x
        0x79 => [0x00, 0x00, 0xCC, 0xCC, 0xCC, 0x7C, 0x0C, 0xF8],  // y
        0x7A => [0x00, 0x00, 0xFC, 0x98, 0x30, 0x64, 0xFC, 0x00],  // z
        _ => [0x00, 0x00, 0x00, 0x00, 0x00, 0x00, 0x00, 0x00],
    };
    assert(rows@ =~= glyph_rows(c));
    rows
}

} // verus!
