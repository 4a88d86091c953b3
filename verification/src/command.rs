use vstd::prelude::*;

use crate::character_set::CharacterSet;
use crate::{ESC, GS};

verus! {

/// Append every byte of `data` to `out`, in order.
pub fn append_bytes(out: &mut Vec<u8>, data: &[u8])
    ensures
        final(out)@ == old(out)@ + data@,
{
    let mut i: usize = 0;
    while i < data.len()
        invariant
            0 <= i <= data@.len(),
            out@ == old(out)@ + data@.subrange(0, i as int),
        decreases data@.len() - i,
    {
        out.push(data[i]);
        proof {
            assert(data@.subrange(0, i + 1) =~= data@.subrange(0, i as int).push(data@[i as int]));
        }
        i += 1;
    }
    proof {
        assert(data@.subrange(0, data@.len() as int) =~= data@);
    }
}

/// Bytes of the justification command.
pub open spec fn alignment_bytes(n: u8) -> Seq<u8> {
    seq![ESC, 0x61, n]
}

/// Select justification.
pub fn alignment(n: u8) -> (r: [u8; 3])
    ensures
        r@ == alignment_bytes(n),
{
    [ESC, 0x61, n]
}

/// Bytes of the barcode-height command.
pub open spec fn barcode_height_bytes(n: u8) -> Seq<u8> {
    seq![GS, 0x68, n]
}

/// Set barcode height.
pub fn barcode_height(n: u8) -> (r: [u8; 3])
    ensures
        r@ == barcode_height_bytes(n),
{
    [GS, 0x68, n]
}

/// Bytes of the HRI-font command.
pub open spec fn barcode_hri_font_bytes(n: u8) -> Seq<u8> {
    seq![GS, 0x66, n]
}

/// Select the font for HRI characters.
pub fn barcode_hri_font(n: u8) -> (r: [u8; 3])
    ensures
        r@ == barcode_hri_font_bytes(n),
{
    [GS, 0x66, n]
}

/// Bytes of the HRI-position command.
pub open spec fn barcode_hri_position_bytes(n: u8) -> Seq<u8> {
    seq![GS, 0x48, n]
}

/// Select the print position of HRI characters.
pub fn barcode_hri_position(n: u8) -> (r: [u8; 3])
    ensures
        r@ == barcode_hri_position_bytes(n),
{
    [GS, 0x48, n]
}

/// Bytes of the barcode-print command: header, symbology `m`, declared
/// length `n`, then the payload verbatim.
pub open spec fn barcode_print_bytes(m: u8, n: u8, data: Seq<u8>) -> Seq<u8> {
    seq![GS, 0x6b, m, n] + data
}

/// Print a barcode.
pub fn barcode_print(m: u8, n: u8, data: &[u8]) -> (r: Vec<u8>)
    ensures
        r@ == barcode_print_bytes(m, n, data@),
{
    let mut command: Vec<u8> = vec![GS, 0x6b, m, n];
    append_bytes(&mut command, data);
    command
}

/// Bytes of the barcode-width command.
pub open spec fn barcode_width_bytes(n: u8) -> Seq<u8> {
    seq![GS, 0x77, n]
}

/// Set barcode width.
pub fn barcode_width(n: u8) -> (r: [u8; 3])
    ensures
        r@ == barcode_width_bytes(n),
{
    [GS, 0x77, n]
}

/// Bytes of the pulse command: drawer number, on time, off time.
pub open spec fn cash_draw_bytes(m: u8, t1: u8, t2: u8) -> Seq<u8> {
    seq![ESC, 0x70, m, t1, t2]
}

/// Generate a cash-drawer pulse.
pub fn cash_draw(m: u8, t1: u8, t2: u8) -> (r: [u8; 5])
    ensures
        r@ == cash_draw_bytes(m, t1, t2),
{
    [ESC, 0x70, m, t1, t2]
}

/// Bytes of the code-table selection command.
pub open spec fn character_code_table_bytes(n: u8) -> Seq<u8> {
    seq![ESC, 0x74, n]
}

/// Select a character code table.
pub fn character_code_table(n: u8) -> (r: [u8; 3])
    ensures
        r@ == character_code_table_bytes(n),
{
    [ESC, 0x74, n]
}

/// Bytes of the cut command; the optional trailing byte makes the sequence
/// strictly longer, never a placeholder.
pub open spec fn cut_bytes(m: u8, n: Option<u8>) -> Seq<u8> {
    match n {
        Some(v) => seq![GS, 0x56, m, v],
        None => seq![GS, 0x56, m],
    }
}

/// Select a cut mode and cut the paper.
pub fn cut(m: u8, n: Option<u8>) -> (r: Vec<u8>)
    ensures
        r@ == cut_bytes(m, n),
{
    let mut cmd: Vec<u8> = vec![GS, 0x56, m];
    match n {
        Some(val) => {
            cmd.push(val);
        },
        None => {},
    }
    cmd
}

/// Cut commands without the optional trailing byte differ in their final
/// parameter byte alone: same length, same bytes everywhere before it.
pub proof fn lemma_cut_mode_difference(m1: u8, m2: u8)
    ensures
        cut_bytes(m1, Option::None).len() == cut_bytes(m2, Option::None).len(),
        forall|i: int|
            0 <= i < cut_bytes(m1, Option::None).len() - 1 ==> cut_bytes(m1, Option::None)[i]
                == cut_bytes(m2, Option::None)[i],
        cut_bytes(m1, Option::None).last() == m1,
        cut_bytes(m2, Option::None).last() == m2,
{
}

/// Bytes of the raster-image command: header, mode, width and height each
/// split into a low and a high byte, then the packed raster verbatim.
pub open spec fn image_bytes(m: u8, xl: u8, xh: u8, yl: u8, yh: u8, data: Seq<u8>) -> Seq<u8> {
    seq![GS, 0x76, 0x30, m, xl, xh, yl, yh] + data
}

/// Print a raster bit image.
pub fn image(m: u8, xl: u8, xh: u8, yl: u8, yh: u8, data: &[u8]) -> (r: Vec<u8>)
    ensures
        r@ == image_bytes(m, xl, xh, yl, yh, data@),
{
    let mut base: Vec<u8> = vec![GS, 0x76, 0x30, m, xl, xh, yl, yh];
    append_bytes(&mut base, data);
    base
}

/// Bytes of the initialize command.
pub open spec fn initialize_bytes() -> Seq<u8> {
    seq![ESC, 0x40]
}

/// Initialize the printer.
pub fn initialize() -> (r: [u8; 2])
    ensures
        r@ == initialize_bytes(),
{
    [ESC, 0x40]
}

/// Bytes of the international-character-set command.
pub open spec fn international_character_set_bytes(n: u8) -> Seq<u8> {
    seq![ESC, 0x52, n]
}

/// Select an international character set.
pub fn international_character_set(n: u8) -> (r: [u8; 3])
    ensures
        r@ == international_character_set_bytes(n),
{
    [ESC, 0x52, n]
}

/// Bytes of the inverted-printing command.
pub open spec fn invert_bytes(n: u8) -> Seq<u8> {
    seq![GS, 0x42, n]
}

/// Specify or cancel white/black inverted printing.
pub fn invert(n: u8) -> (r: [u8; 3])
    ensures
        r@ == invert_bytes(n),
{
    [GS, 0x42, n]
}

/// Bytes of the QR-code cell-size command.
pub open spec fn qr_code_cell_size_bytes(n: u8) -> Seq<u8> {
    seq![GS, 0x28, 0x6b, 0x03, 0x00, 0x31, 0x43, n]
}

/// QR code: set the size of a module.
pub fn qr_code_cell_size(n: u8) -> (r: [u8; 8])
    ensures
        r@ == qr_code_cell_size_bytes(n),
{
    [GS, 0x28, 0x6b, 0x03, 0x00, 0x31, 0x43, n]
}

/// Bytes of the QR-code correction-level command.
pub open spec fn qr_code_correction_level_bytes(n: u8) -> Seq<u8> {
    seq![GS, 0x28, 0x6b, 0x03, 0x00, 0x31, 0x45, n]
}

/// QR code: select the error correction level.
pub fn qr_code_correction_level(n: u8) -> (r: [u8; 8])
    ensures
        r@ == qr_code_correction_level_bytes(n),
{
    [GS, 0x28, 0x6b, 0x03, 0x00, 0x31, 0x45, n]
}

/// Bytes of the QR-code model command; a missing version byte stands in as 0.
pub open spec fn qr_code_model_bytes(n1: u8, n2: Option<u8>) -> Seq<u8> {
    seq![GS, 0x28, 0x6b, 0x04, 0x00, 0x31, 0x41, n1, (match n2 {
        Some(v) => v,
        None => 0,
    })]
}

/// QR code: select the model.
pub fn qr_code_model(n1: u8, n2: Option<u8>) -> (r: [u8; 9])
    ensures
        r@ == qr_code_model_bytes(n1, n2),
{
    let version: u8 = match n2 {
        Some(v) => v,
        None => 0,
    };
    [GS, 0x28, 0x6b, 0x04, 0x00, 0x31, 0x41, n1, version]
}

/// Bytes of the QR-code print command.
pub open spec fn qr_code_print_bytes() -> Seq<u8> {
    seq![GS, 0x28, 0x6b, 0x03, 0x00, 0x31, 0x51, 48]
}

/// QR code: print the symbol data held in the symbol storage area.
pub fn qr_code_print() -> (r: [u8; 8])
    ensures
        r@ == qr_code_print_bytes(),
{
    [GS, 0x28, 0x6b, 0x03, 0x00, 0x31, 0x51, 48]
}

/// Bytes of the QR-code store command: header, declared length split into a
/// low and a high byte, then the payload verbatim.
pub open spec fn qr_code_store_bytes(pl: u8, ph: u8, data: Seq<u8>) -> Seq<u8> {
    seq![GS, 0x28, 0x6b, pl, ph, 0x31, 0x50, 0x30] + data
}

/// QR code: store the data in the symbol storage area.
pub fn qr_code_store(pl: u8, ph: u8, data: &[u8]) -> (r: Vec<u8>)
    ensures
        r@ == qr_code_store_bytes(pl, ph, data@),
{
    let mut command: Vec<u8> = vec![GS, 0x28, 0x6b, pl, ph, 0x31, 0x50, 0x30];
    append_bytes(&mut command, data);
    command
}

/// Bytes of the emphasized-mode command.
pub open spec fn text_bold_bytes(n: u8) -> Seq<u8> {
    seq![ESC, 0x45, n]
}

/// Turn emphasized mode on or off.
pub fn text_bold(n: u8) -> (r: [u8; 3])
    ensures
        r@ == text_bold_bytes(n),
{
    [ESC, 0x45, n]
}

/// Bytes of the font-selection command.
pub open spec fn text_font_bytes(n: u8) -> Seq<u8> {
    seq![ESC, 0x4d, n]
}

/// Select a character font.
pub fn text_font(n: u8) -> (r: [u8; 3])
    ensures
        r@ == text_font_bytes(n),
{
    [ESC, 0x4d, n]
}

/// Bytes of the print-mode command.
pub open spec fn text_mode_bytes(n: u8) -> Seq<u8> {
    seq![ESC, 0x21, n]
}

/// Select print modes by bitmask.
pub fn text_mode(n: u8) -> (r: [u8; 3])
    ensures
        r@ == text_mode_bytes(n),
{
    [ESC, 0x21, n]
}

/// Bytes of the character-size command.
pub open spec fn text_size_bytes(n: u8) -> Seq<u8> {
    seq![GS, 0x21, n]
}

/// Select a character size.
pub fn text_size(n: u8) -> (r: [u8; 3])
    ensures
        r@ == text_size_bytes(n),
{
    [GS, 0x21, n]
}

/// Bytes of the underline-mode command.
pub open spec fn text_underline_bytes(n: u8) -> Seq<u8> {
    seq![ESC, 0x2d, n]
}

/// Turn underline mode on or off.
pub fn text_underline(n: u8) -> (r: [u8; 3])
    ensures
        r@ == text_underline_bytes(n),
{
    [ESC, 0x2d, n]
}

/// Bytes of the selection command for a character set: either a code-table
/// selection or an international-character-set selection.
pub open spec fn character_set_bytes(set: CharacterSet) -> Seq<u8> {
    match set {
        CharacterSet::Pc437Usa => character_code_table_bytes(0),
        CharacterSet::Pc850Multilingual => character_code_table_bytes(2),
        CharacterSet::Pc860Portuguese => character_code_table_bytes(3),
        CharacterSet::Pc863CanadianFrench => character_code_table_bytes(4),
        CharacterSet::Pc865Nordic => character_code_table_bytes(5),
        CharacterSet::Pc851Greek => character_code_table_bytes(11),
        CharacterSet::Pc857Turkish => character_code_table_bytes(12),
        CharacterSet::Pc737Greek => character_code_table_bytes(14),
        CharacterSet::Iso8859_7Greek => character_code_table_bytes(15),
        CharacterSet::Wpc1252 => character_code_table_bytes(16),
        CharacterSet::Pc866Cyrillic2 => character_code_table_bytes(17),
        CharacterSet::Pc852Latin2 => character_code_table_bytes(18),
        CharacterSet::Slovenia => character_code_table_bytes(18),
        CharacterSet::Pc858Euro => character_code_table_bytes(19),
        CharacterSet::Wpc775BalticRim => character_code_table_bytes(33),
        CharacterSet::Pc855Cyrillic => character_code_table_bytes(34),
        CharacterSet::Pc861Icelandic => character_code_table_bytes(35),
        CharacterSet::Pc862Hebrew => character_code_table_bytes(36),
        CharacterSet::Pc864Arabic => character_code_table_bytes(37),
        CharacterSet::Pc869Greek => character_code_table_bytes(38),
        CharacterSet::Iso8859_2Latin2 => character_code_table_bytes(39),
        CharacterSet::Iso8859_15Latin9 => character_code_table_bytes(40),
        CharacterSet::Pc1125Ukranian => character_code_table_bytes(44),
        CharacterSet::Wpc1250Latin2 => character_code_table_bytes(45),
        CharacterSet::Wpc1251Cyrillic => character_code_table_bytes(46),
        CharacterSet::Wpc1253Greek => character_code_table_bytes(47),
        CharacterSet::Wpc1254Turkish => character_code_table_bytes(48),
        CharacterSet::Wpc1255Hebrew => character_code_table_bytes(49),
        CharacterSet::Wpc1256Arabic => character_code_table_bytes(50),
        CharacterSet::Wpc1257BalticRim => character_code_table_bytes(51),
        CharacterSet::Wpc1258Vietnamese => character_code_table_bytes(52),
        CharacterSet::Kz1048Kazakhstan => character_code_table_bytes(53),
        CharacterSet::Japan => international_character_set_bytes(0x08),
        CharacterSet::Korea => international_character_set_bytes(0x0d),
        CharacterSet::China => international_character_set_bytes(0x0f),
        CharacterSet::HkTw => international_character_set_bytes(0x00),
    }
}

/// Select a character set.
pub fn character_set(set: &CharacterSet) -> (r: [u8; 3])
    ensures
        r@ == character_set_bytes(*set),
{
    match set {
        CharacterSet::Pc437Usa => character_code_table(0),
        CharacterSet::Pc850Multilingual => character_code_table(2),
        CharacterSet::Pc860Portuguese => character_code_table(3),
        CharacterSet::Pc863CanadianFrench => character_code_table(4),
        CharacterSet::Pc865Nordic => character_code_table(5),
        CharacterSet::Pc851Greek => character_code_table(11),
        CharacterSet::Pc857Turkish => character_code_table(12),
        CharacterSet::Pc737Greek => character_code_table(14),
        CharacterSet::Iso8859_7Greek => character_code_table(15),
        CharacterSet::Wpc1252 => character_code_table(16),
        CharacterSet::Pc866Cyrillic2 => character_code_table(17),
        CharacterSet::Pc852Latin2 => character_code_table(18),
        CharacterSet::Slovenia => character_code_table(18),
        CharacterSet::Pc858Euro => character_code_table(19),
        CharacterSet::Wpc775BalticRim => character_code_table(33),
        CharacterSet::Pc855Cyrillic => character_code_table(34),
        CharacterSet::Pc861Icelandic => character_code_table(35),
        CharacterSet::Pc862Hebrew => character_code_table(36),
        CharacterSet::Pc864Arabic => character_code_table(37),
        CharacterSet::Pc869Greek => character_code_table(38),
        CharacterSet::Iso8859_2Latin2 => character_code_table(39),
        CharacterSet::Iso8859_15Latin9 => character_code_table(40),
        CharacterSet::Pc1125Ukranian => character_code_table(44),
        CharacterSet::Wpc1250Latin2 => character_code_table(45),
        CharacterSet::Wpc1251Cyrillic => character_code_table(46),
        CharacterSet::Wpc1253Greek => character_code_table(47),
        CharacterSet::Wpc1254Turkish => character_code_table(48),
        CharacterSet::Wpc1255Hebrew => character_code_table(49),
        CharacterSet::Wpc1256Arabic => character_code_table(50),
        CharacterSet::Wpc1257BalticRim => character_code_table(51),
        CharacterSet::Wpc1258Vietnamese => character_code_table(52),
        CharacterSet::Kz1048Kazakhstan => character_code_table(53),
        CharacterSet::Japan => international_character_set(0x08),
        CharacterSet::Korea => international_character_set(0x0d),
        CharacterSet::China => international_character_set(0x0f),
        CharacterSet::HkTw => international_character_set(0x00),
    }
}

} // verus!
