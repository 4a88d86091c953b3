use vstd::prelude::*;

use crate::character_set::CharacterSet;
use crate::command;
use crate::image::{raster_seq, row_bytes, Image};
use crate::transcode::{encode_text, transcoded};
use crate::LF;

verus! {

/// QR-code model selection.
#[derive(Clone, Copy, Debug)]
pub enum QRCodeModel {
    Model1,
    Model2,
    Micro,
}

/// QR-code module (cell) size in dots.
#[derive(Clone, Copy, Debug)]
pub enum QRCodeCellSize {
    Size1,
    Size2,
    Size3,
    Size4,
    Size5,
    Size6,
    Size7,
    Size8,
}

/// QR-code error correction level.
#[derive(Clone, Copy, Debug)]
pub enum QRCodeCorrection {
    L,
    M,
    Q,
    H,
}

/// Options of a QR-code print.
#[derive(Clone, Copy, Debug)]
pub struct QRCodeOptions {
    pub model: QRCodeModel,
    pub cell_size: QRCodeCellSize,
    pub correction: QRCodeCorrection,
}

/// Where the human-readable interpretation of a barcode is printed.
#[derive(Clone, Copy, Debug)]
pub enum HriPosition {
    Hidden,
    Top,
    Bottom,
    TopBottom,
}

/// Character font.
#[derive(Clone, Copy, Debug)]
pub enum TextFont {
    A,
    B,
    C,
    D,
    E,
    SpecialA,
    SpecialB,
}

/// Barcode module width.
#[derive(Clone, Copy, Debug)]
pub enum BarcodeWidth {
    Width1,
    Width2,
    Width3,
    Width4,
    Width5,
    Width6,
}

/// Options of a barcode print.
#[derive(Clone, Copy, Debug)]
pub struct BarcodeOptions {
    pub hri_position: HriPosition,
    pub hri_font: TextFont,
    pub width: BarcodeWidth,
    pub height: u8,
}

/// Barcode symbology.
#[derive(Clone, Copy, Debug)]
pub enum BarcodeType {
    UPCA,
    UPCE,
    JAN13,
    JAN8,
    CODE39,
    ITF,
    CODABAR,
    CODE93,
    CODE128,
    GS1128,
    GS1DataBarOmnidirectional,
    GS1DataBarTruncated,
    GS1DataBarLimited,
    GS1DataBarExpanded,
}

/// Cash-drawer connector pin.
#[derive(Clone, Copy, Debug)]
pub enum CashDrawerPin {
    TwoPin,
    FivePin,
}

/// Underline thickness.
#[derive(Clone, Copy, Debug)]
pub enum TextUnderline {
    OneDotThick,
    TwoDotThick,
    Off,
}

/// Justification.
#[derive(Clone, Copy, Debug)]
pub enum Align {
    Left,
    Center,
    Right,
}

/// Character magnification, from normal (1) to eightfold (8).
#[derive(Clone, Copy, Debug)]
pub enum TextSize {
    Size1,
    Size2,
    Size3,
    Size4,
    Size5,
    Size6,
    Size7,
    Size8,
}

/// An operation a builder can apply several times in a row.
#[derive(Clone, Copy, Debug)]
pub enum RepeatOp {
    NewLine,
    Initialize,
    TextNormal,
}

/// Why a builder operation was refused; the buffer is left untouched.
#[derive(Clone, Copy, Debug, PartialEq, Eq, Structural)]
pub enum PrintError {
    /// The active codepage cannot represent some character of the text, or
    /// the codepage name is unknown to the transcoder.
    TranscodeFailure,
    /// The payload is longer than its declared length field can carry.
    OversizedPayload,
}

/// Protocol code of a QR-code model.
pub open spec fn qr_model_code(m: QRCodeModel) -> u8 {
    match m {
        QRCodeModel::Model1 => 49,
        QRCodeModel::Model2 => 50,
        QRCodeModel::Micro => 51,
    }
}

/// Protocol code of a QR-code cell size.
pub open spec fn qr_cell_size_code(c: QRCodeCellSize) -> u8 {
    match c {
        QRCodeCellSize::Size1 => 1,
        QRCodeCellSize::Size2 => 2,
        QRCodeCellSize::Size3 => 3,
        QRCodeCellSize::Size4 => 4,
        QRCodeCellSize::Size5 => 5,
        QRCodeCellSize::Size6 => 6,
        QRCodeCellSize::Size7 => 7,
        QRCodeCellSize::Size8 => 8,
    }
}

/// Protocol code of a QR-code correction level.
pub open spec fn qr_correction_code(c: QRCodeCorrection) -> u8 {
    match c {
        QRCodeCorrection::L => 48,
        QRCodeCorrection::M => 49,
        QRCodeCorrection::Q => 50,
        QRCodeCorrection::H => 51,
    }
}

/// Protocol code of an HRI print position.
pub open spec fn hri_position_code(p: HriPosition) -> u8 {
    match p {
        HriPosition::Hidden => 0,
        HriPosition::Top => 1,
        HriPosition::Bottom => 2,
        HriPosition::TopBottom => 3,
    }
}

/// Protocol code of a character font.
pub open spec fn font_code(f: TextFont) -> u8 {
    match f {
        TextFont::A => 0,
        TextFont::B => 1,
        TextFont::C => 2,
        TextFont::D => 3,
        TextFont::E => 4,
        TextFont::SpecialA => 97,
        TextFont::SpecialB => 98,
    }
}

/// Protocol code of a barcode module width.
pub open spec fn barcode_width_code(w: BarcodeWidth) -> u8 {
    match w {
        BarcodeWidth::Width1 => 1,
        BarcodeWidth::Width2 => 2,
        BarcodeWidth::Width3 => 3,
        BarcodeWidth::Width4 => 4,
        BarcodeWidth::Width5 => 5,
        BarcodeWidth::Width6 => 6,
    }
}

/// Protocol code of a barcode symbology.
pub open spec fn barcode_type_code(t: BarcodeType) -> u8 {
    match t {
        BarcodeType::UPCA => 65,
        BarcodeType::UPCE => 66,
        BarcodeType::JAN13 => 67,
        BarcodeType::JAN8 => 68,
        BarcodeType::CODE39 => 69,
        BarcodeType::ITF => 70,
        BarcodeType::CODABAR => 71,
        BarcodeType::CODE93 => 72,
        BarcodeType::CODE128 => 73,
        BarcodeType::GS1128 => 74,
        BarcodeType::GS1DataBarOmnidirectional => 75,
        BarcodeType::GS1DataBarTruncated => 76,
        BarcodeType::GS1DataBarLimited => 77,
        BarcodeType::GS1DataBarExpanded => 78,
    }
}

/// Protocol code of a cash-drawer pin.
pub open spec fn pin_code(p: CashDrawerPin) -> u8 {
    match p {
        CashDrawerPin::TwoPin => 0,
        CashDrawerPin::FivePin => 1,
    }
}

/// Protocol code of an underline mode.
pub open spec fn underline_code(u: TextUnderline) -> u8 {
    match u {
        TextUnderline::OneDotThick => 1,
        TextUnderline::TwoDotThick => 2,
        TextUnderline::Off => 0,
    }
}

/// Protocol code of a justification.
pub open spec fn align_code(a: Align) -> u8 {
    match a {
        Align::Left => 0,
        Align::Center => 1,
        Align::Right => 2,
    }
}

/// Magnification factor minus one, as the protocol counts sizes.
pub open spec fn size_code(s: TextSize) -> u8 {
    match s {
        TextSize::Size1 => 0,
        TextSize::Size2 => 1,
        TextSize::Size3 => 2,
        TextSize::Size4 => 3,
        TextSize::Size5 => 4,
        TextSize::Size6 => 5,
        TextSize::Size7 => 6,
        TextSize::Size8 => 7,
    }
}

/// The character-size parameter byte: width code in the high nibble, height
/// code in the low nibble.
pub open spec fn text_size_value(width: TextSize, height: TextSize) -> u8 {
    (size_code(width) * 16 + size_code(height)) as u8
}

/// The low byte of a length split for a 16-bit protocol field.
pub open spec fn low_byte(x: int) -> u8 {
    (x % 256) as u8
}

/// The high byte of a length split for a 16-bit protocol field.
pub open spec fn high_byte(x: int) -> u8 {
    ((x / 256) % 256) as u8
}

/// The codepage every barcode and QR payload is transcoded with, independent
/// of the builder's active character set.
pub open spec fn default_codepage() -> Seq<char> {
    "CP437"@
}

/// The bytes one application of `op` appends.
pub open spec fn repeat_op_bytes(op: RepeatOp) -> Seq<u8> {
    match op {
        RepeatOp::NewLine => seq![LF],
        RepeatOp::Initialize => command::initialize_bytes(),
        RepeatOp::TextNormal => command::text_mode_bytes(0),
    }
}

/// The bytes `times` applications of `op` append, in order.
pub open spec fn repeated_bytes(op: RepeatOp, times: nat) -> Seq<u8>
    decreases times,
{
    if times == 0 {
        Seq::empty()
    } else {
        repeated_bytes(op, (times - 1) as nat) + repeat_op_bytes(op)
    }
}

/// The full five-command QR sub-protocol for `encoded` payload bytes: model,
/// cell size, correction level, store (declared length = payload length plus
/// three), print — in this exact order.
pub open spec fn qr_sequence(options: QRCodeOptions, encoded: Seq<u8>) -> Seq<u8> {
    command::qr_code_model_bytes(qr_model_code(options.model), Option::None)
        + command::qr_code_cell_size_bytes(qr_cell_size_code(options.cell_size))
        + command::qr_code_correction_level_bytes(qr_correction_code(options.correction))
        + command::qr_code_store_bytes(
        low_byte(encoded.len() + 3 as int),
        high_byte(encoded.len() + 3 as int),
        encoded,
    ) + command::qr_code_print_bytes()
}

/// The full barcode sub-protocol for `encoded` payload bytes: HRI position,
/// HRI font, width, height, then the print command carrying the payload — in
/// this exact order.
pub open spec fn barcode_sequence(
    kind: BarcodeType,
    options: BarcodeOptions,
    encoded: Seq<u8>,
) -> Seq<u8> {
    command::barcode_hri_position_bytes(hri_position_code(options.hri_position))
        + command::barcode_hri_font_bytes(font_code(options.hri_font))
        + command::barcode_width_bytes(barcode_width_code(options.width))
        + command::barcode_height_bytes(options.height) + command::barcode_print_bytes(
        barcode_type_code(kind),
        low_byte(encoded.len() as int),
        encoded,
    )
}

/// The raster-image command for `img`: width in bytes and height in rows,
/// each split into low and high byte, then the packed raster.
pub open spec fn image_command(img: Image) -> Seq<u8> {
    command::image_bytes(
        0,
        low_byte(row_bytes(img.width_spec())),
        high_byte(row_bytes(img.width_spec())),
        low_byte(img.height_spec() as int),
        high_byte(img.height_spec() as int),
        raster_seq(img),
    )
}

/// The instruction interface of a command builder.  Every operation appends
/// whole commands at the end of the buffer and leaves everything before them
/// unchanged; only `set_character_set` moves the active character set.
pub trait Printer: Sized {
    /// The bytes accumulated so far.
    spec fn buffer(&self) -> Seq<u8>;

    /// The character set text is currently transcoded with.
    spec fn charset(&self) -> CharacterSet;

    /// Append the selection command for `set` and make it the active set.
    fn set_character_set(&mut self, set: CharacterSet)
        ensures
            final(self).buffer() == old(self).buffer() + command::character_set_bytes(set),
            final(self).charset() == set,
    ;

    /// Append the font-selection command.
    fn set_text_font(&mut self, font: TextFont)
        ensures
            final(self).buffer() == old(self).buffer() + command::text_font_bytes(
                font_code(font),
            ),
            final(self).charset() == old(self).charset(),
    ;

    /// Append the emphasized-mode command.
    fn set_text_bold(&mut self, bold: bool)
        ensures
            final(self).buffer() == old(self).buffer() + command::text_bold_bytes(
                if bold {
                    1
                } else {
                    0
                },
            ),
            final(self).charset() == old(self).charset(),
    ;

    /// Append the character-size command for the given magnifications.
    fn set_text_size(&mut self, width: TextSize, height: TextSize)
        ensures
            final(self).buffer() == old(self).buffer() + command::text_size_bytes(
                text_size_value(width, height),
            ),
            final(self).charset() == old(self).charset(),
    ;

    /// Append the underline-mode command.
    fn set_text_underline(&mut self, underline: TextUnderline)
        ensures
            final(self).buffer() == old(self).buffer() + command::text_underline_bytes(
                underline_code(underline),
            ),
            final(self).charset() == old(self).charset(),
    ;

    /// Append the print-mode command that resets every text attribute.
    fn set_text_normal(&mut self)
        ensures
            final(self).buffer() == old(self).buffer() + command::text_mode_bytes(0),
            final(self).charset() == old(self).charset(),
    ;

    /// Append the justification command.
    fn set_align(&mut self, align: Align)
        ensures
            final(self).buffer() == old(self).buffer() + command::alignment_bytes(
                align_code(align),
            ),
            final(self).charset() == old(self).charset(),
    ;

    /// Append the inverted-printing command.
    fn invert(&mut self, enabled: bool)
        ensures
            final(self).buffer() == old(self).buffer() + command::invert_bytes(
                if enabled {
                    1
                } else {
                    0
                },
            ),
            final(self).charset() == old(self).charset(),
    ;

    /// Transcode `data` with the active character set's codepage and append
    /// the bytes verbatim; on a transcoding failure the buffer is untouched.
    fn text(&mut self, data: &str) -> (res: Result<(), PrintError>)
        ensures
            final(self).charset() == old(self).charset(),
            match transcoded(data@, old(self).charset().codepage_spec()) {
                Option::Some(b) => res is Ok && final(self).buffer() == old(self).buffer() + b,
                Option::None => res == Err::<(), PrintError>(PrintError::TranscodeFailure)
                    && final(self).buffer() == old(self).buffer(),
            },
    ;

    /// Append raw bytes verbatim.
    fn raw(&mut self, data: &[u8])
        ensures
            final(self).buffer() == old(self).buffer() + data@,
            final(self).charset() == old(self).charset(),
    ;

    /// Append a line feed.
    fn new_line(&mut self)
        ensures
            final(self).buffer() == old(self).buffer() + seq![LF],
            final(self).charset() == old(self).charset(),
    ;

    /// Append the cut command, full or partial.
    fn cut(&mut self, partial: bool)
        ensures
            final(self).buffer() == old(self).buffer() + command::cut_bytes(
                if partial {
                    49
                } else {
                    48
                },
                Option::None,
            ),
            final(self).charset() == old(self).charset(),
    ;

    /// Append the raster-image command for `image`.
    fn image(&mut self, image: Image)
        ensures
            final(self).buffer() == old(self).buffer() + image_command(image),
            final(self).charset() == old(self).charset(),
    ;

    /// Append the five-command QR sub-protocol for `data`, transcoded with
    /// the default codepage.  Fails, leaving the buffer untouched, when the
    /// transcoder cannot represent the text or the stored length (payload
    /// plus three) does not fit the 16-bit length field.
    fn qrcode(&mut self, data: &str, options: QRCodeOptions) -> (res: Result<(), PrintError>)
        ensures
            final(self).charset() == old(self).charset(),
            match transcoded(data@, default_codepage()) {
                Option::Some(b) => {
                    if b.len() + 3 > 0xffff {
                        res == Err::<(), PrintError>(PrintError::OversizedPayload) && final(self).buffer() == old(self).buffer()
                    } else {
                        res is Ok && final(self).buffer() == old(self).buffer() + qr_sequence(
                            options,
                            b,
                        )
                    }
                },
                Option::None => res == Err::<(), PrintError>(PrintError::TranscodeFailure)
                    && final(self).buffer() == old(self).buffer(),
            },
    ;

    /// Append the barcode sub-protocol for `data`, transcoded with the
    /// default codepage.  Fails, leaving the buffer untouched, when the
    /// transcoder cannot represent the text or the payload does not fit the
    /// one-byte length field.
    fn barcode(&mut self, data: &str, kind: BarcodeType, options: BarcodeOptions) -> (res: Result<
        (),
        PrintError,
    >)
        ensures
            final(self).charset() == old(self).charset(),
            match transcoded(data@, default_codepage()) {
                Option::Some(b) => {
                    if b.len() > 0xff {
                        res == Err::<(), PrintError>(PrintError::OversizedPayload) && final(self).buffer() == old(self).buffer()
                    } else {
                        res is Ok && final(self).buffer() == old(self).buffer()
                            + barcode_sequence(kind, options, b)
                    }
                },
                Option::None => res == Err::<(), PrintError>(PrintError::TranscodeFailure)
                    && final(self).buffer() == old(self).buffer(),
            },
    ;

    /// Append the pulse command for the given drawer pin.
    fn cash_draw(&mut self, pin: CashDrawerPin)
        ensures
            final(self).buffer() == old(self).buffer() + command::cash_draw_bytes(
                pin_code(pin),
                0x19,
                0x78,
            ),
            final(self).charset() == old(self).charset(),
    ;

    /// Append the initialize command.
    fn initialize(&mut self)
        ensures
            final(self).buffer() == old(self).buffer() + command::initialize_bytes(),
            final(self).charset() == old(self).charset(),
    ;

    /// A copy of the accumulated buffer; the builder keeps it.
    fn get_data(&self) -> (r: Vec<u8>)
        ensures
            r@ == self.buffer(),
    ;

    /// Truncate the buffer to empty.  The active character set survives.
    fn clear(&mut self)
        ensures
            final(self).buffer() == Seq::<u8>::empty(),
            final(self).charset() == old(self).charset(),
    ;

    /// Apply `op` `times` times in a row.
    fn repeat(&mut self, times: usize, op: RepeatOp)
        ensures
            final(self).buffer() == old(self).buffer() + repeated_bytes(op, times as nat),
            final(self).charset() == old(self).charset(),
    {
        let mut t: usize = 0;
        while t < times
            invariant
                0 <= t <= times,
                self.buffer() == old(self).buffer() + repeated_bytes(op, t as nat),
                self.charset() == old(self).charset(),
            decreases times - t,
        {
            match op {
                RepeatOp::NewLine => self.new_line(),
                RepeatOp::Initialize => self.initialize(),
                RepeatOp::TextNormal => self.set_text_normal(),
            }
            proof {
                assert(old(self).buffer() + repeated_bytes(op, t as nat) + repeat_op_bytes(op)
                    =~= old(self).buffer() + repeated_bytes(op, (t + 1) as nat));
            }
            t += 1;
        }
    }
}

/// The canonical builder: a byte buffer and the active character set.
pub struct BasePrinter {
    cmds: Vec<u8>,
    character_set: CharacterSet,
}

impl Default for BasePrinter {
    /// A fresh builder: empty buffer, default character set.
    fn default() -> (r: Self)
        ensures
            r.buffer() == Seq::<u8>::empty(),
            r.charset() == CharacterSet::Pc437Usa,
    {
        BasePrinter { cmds: Vec::new(), character_set: CharacterSet::Pc437Usa }
    }
}

impl Printer for BasePrinter {
    closed spec fn buffer(&self) -> Seq<u8> {
        self.cmds@
    }

    closed spec fn charset(&self) -> CharacterSet {
        self.character_set
    }

    fn set_character_set(&mut self, set: CharacterSet) {
        let c = command::character_set(&set);
        command::append_bytes(&mut self.cmds, c.as_slice());
        self.character_set = set;
    }

    fn set_text_font(&mut self, font: TextFont) {
        let n: u8 = match font {
            TextFont::A => 0,
            TextFont::B => 1,
            TextFont::C => 2,
            TextFont::D => 3,
            TextFont::E => 4,
            TextFont::SpecialA => 97,
            TextFont::SpecialB => 98,
        };
        let c = command::text_font(n);
        command::append_bytes(&mut self.cmds, c.as_slice());
    }

    fn set_text_bold(&mut self, bold: bool) {
        let c = command::text_bold(
            if bold {
                1
            } else {
                0
            },
        );
        command::append_bytes(&mut self.cmds, c.as_slice());
    }

    fn set_text_size(&mut self, width: TextSize, height: TextSize) {
        let w: u8 = match width {
            TextSize::Size1 => 0,
            TextSize::Size2 => 1,
            TextSize::Size3 => 2,
            TextSize::Size4 => 3,
            TextSize::Size5 => 4,
            TextSize::Size6 => 5,
            TextSize::Size7 => 6,
            TextSize::Size8 => 7,
        };
        let h: u8 = match height {
            TextSize::Size1 => 0,
            TextSize::Size2 => 1,
            TextSize::Size3 => 2,
            TextSize::Size4 => 3,
            TextSize::Size5 => 4,
            TextSize::Size6 => 5,
            TextSize::Size7 => 6,
            TextSize::Size8 => 7,
        };
        let n: u8 = w * 16 + h;
        let c = command::text_size(n);
        command::append_bytes(&mut self.cmds, c.as_slice());
    }

    fn set_text_underline(&mut self, underline: TextUnderline) {
        let n: u8 = match underline {
            TextUnderline::OneDotThick => 1,
            TextUnderline::TwoDotThick => 2,
            TextUnderline::Off => 0,
        };
        let c = command::text_underline(n);
        command::append_bytes(&mut self.cmds, c.as_slice());
    }

    fn set_text_normal(&mut self) {
        let c = command::text_mode(0);
        command::append_bytes(&mut self.cmds, c.as_slice());
    }

    fn set_align(&mut self, align: Align) {
        let n: u8 = match align {
            Align::Left => 0,
            Align::Center => 1,
            Align::Right => 2,
        };
        let c = command::alignment(n);
        command::append_bytes(&mut self.cmds, c.as_slice());
    }

    fn invert(&mut self, enabled: bool) {
        let c = command::invert(
            if enabled {
                1
            } else {
                0
            },
        );
        command::append_bytes(&mut self.cmds, c.as_slice());
    }

    fn text(&mut self, data: &str) -> (res: Result<(), PrintError>) {
        let cp = self.character_set.codepage();
        proof {
            crate::character_set::lemma_codepage_nul_free(self.character_set);
        }
        match encode_text(data, cp) {
            Option::Some(b) => {
                command::append_bytes(&mut self.cmds, b.as_slice());
                Ok(())
            },
            Option::None => Err(PrintError::TranscodeFailure),
        }
    }

    fn raw(&mut self, data: &[u8]) {
        command::append_bytes(&mut self.cmds, data);
    }

    fn new_line(&mut self) {
        self.cmds.push(LF);
    }

    fn cut(&mut self, partial: bool) {
        let c = command::cut(
            if partial {
                49
            } else {
                48
            },
            Option::None,
        );
        command::append_bytes(&mut self.cmds, c.as_slice());
    }

    fn image(&mut self, image: Image) {
        let width = image.width();
        let height = image.height();
        let width_ceiled: u32 = (width as u32 + 7) / 8;
        let xl: u8 = (width_ceiled % 256) as u8;
        let xh: u8 = (width_ceiled / 256) as u8;
        let yl: u8 = (height % 256) as u8;
        let yh: u8 = (height / 256) as u8;
        let raster = image.to_raster();
        let c = command::image(0, xl, xh, yl, yh, raster.as_slice());
        command::append_bytes(&mut self.cmds, c.as_slice());
    }

    fn qrcode(&mut self, data: &str, options: QRCodeOptions) -> (res: Result<(), PrintError>) {
        proof {
            crate::character_set::lemma_codepage_nul_free(CharacterSet::Pc437Usa);
        }
        let encoded = encode_text(data, "CP437");
        match encoded {
            Option::None => Err(PrintError::TranscodeFailure),
            Option::Some(b) => {
                if b.len() > 0xffff - 3 {
                    return Err(PrintError::OversizedPayload);
                }
                let stored_len: usize = b.len() + 3;
                let pl: u8 = (stored_len % 256) as u8;
                let ph: u8 = (stored_len / 256) as u8;
                let model_value: u8 = match options.model {
                    QRCodeModel::Model1 => 49,
                    QRCodeModel::Model2 => 50,
                    QRCodeModel::Micro => 51,
                };
                let c1 = command::qr_code_model(model_value, Option::None);
                command::append_bytes(&mut self.cmds, c1.as_slice());
                let cell_size_value: u8 = match options.cell_size {
                    QRCodeCellSize::Size1 => 1,
                    QRCodeCellSize::Size2 => 2,
                    QRCodeCellSize::Size3 => 3,
                    QRCodeCellSize::Size4 => 4,
                    QRCodeCellSize::Size5 => 5,
                    QRCodeCellSize::Size6 => 6,
                    QRCodeCellSize::Size7 => 7,
                    QRCodeCellSize::Size8 => 8,
                };
                let c2 = command::qr_code_cell_size(cell_size_value);
                command::append_bytes(&mut self.cmds, c2.as_slice());
                let correction_value: u8 = match options.correction {
                    QRCodeCorrection::L => 48,
                    QRCodeCorrection::M => 49,
                    QRCodeCorrection::Q => 50,
                    QRCodeCorrection::H => 51,
                };
                let c3 = command::qr_code_correction_level(correction_value);
                command::append_bytes(&mut self.cmds, c3.as_slice());
                let c4 = command::qr_code_store(pl, ph, b.as_slice());
                command::append_bytes(&mut self.cmds, c4.as_slice());
                let c5 = command::qr_code_print();
                command::append_bytes(&mut self.cmds, c5.as_slice());
                proof {
                    assert(self.cmds@ =~= old(self).cmds@ + qr_sequence(options, b@));
                }
                Ok(())
            },
        }
    }

    #[verifier::rlimit(50)]
    fn barcode(&mut self, data: &str, kind: BarcodeType, options: BarcodeOptions) -> (res: Result<
        (),
        PrintError,
    >) {
        proof {
            crate::character_set::lemma_codepage_nul_free(CharacterSet::Pc437Usa);
        }
        let encoded = encode_text(data, "CP437");
        match encoded {
            Option::None => Err(PrintError::TranscodeFailure),
            Option::Some(b) => {
                if b.len() > 0xff {
                    return Err(PrintError::OversizedPayload);
                }
                let hri_position_value: u8 = match options.hri_position {
                    HriPosition::Hidden => 0,
                    HriPosition::Top => 1,
                    HriPosition::Bottom => 2,
                    HriPosition::TopBottom => 3,
                };
                proof {
                    assert(hri_position_value == hri_position_code(options.hri_position));
                }
                let c1 = command::barcode_hri_position(hri_position_value);
                command::append_bytes(&mut self.cmds, c1.as_slice());
                let hri_font_value: u8 = match options.hri_font {
                    TextFont::A => 0,
                    TextFont::B => 1,
                    TextFont::C => 2,
                    TextFont::D => 3,
                    TextFont::E => 4,
                    TextFont::SpecialA => 97,
                    TextFont::SpecialB => 98,
                };
                proof {
                    assert(hri_font_value == font_code(options.hri_font));
                }
                let c2 = command::barcode_hri_font(hri_font_value);
                command::append_bytes(&mut self.cmds, c2.as_slice());
                let width_value: u8 = match options.width {
                    BarcodeWidth::Width1 => 1,
                    BarcodeWidth::Width2 => 2,
                    BarcodeWidth::Width3 => 3,
                    BarcodeWidth::Width4 => 4,
                    BarcodeWidth::Width5 => 5,
                    BarcodeWidth::Width6 => 6,
                };
                proof {
                    assert(width_value == barcode_width_code(options.width));
                }
                let c3 = command::barcode_width(width_value);
                command::append_bytes(&mut self.cmds, c3.as_slice());
                let c4 = command::barcode_height(options.height);
                command::append_bytes(&mut self.cmds, c4.as_slice());
                let type_value: u8 = match kind {
                    BarcodeType::UPCA => 65,
                    BarcodeType::UPCE => 66,
                    BarcodeType::JAN13 => 67,
                    BarcodeType::JAN8 => 68,
                    BarcodeType::CODE39 => 69,
                    BarcodeType::ITF => 70,
                    BarcodeType::CODABAR => 71,
                    BarcodeType::CODE93 => 72,
                    BarcodeType::CODE128 => 73,
                    BarcodeType::GS1128 => 74,
                    BarcodeType::GS1DataBarOmnidirectional => 75,
                    BarcodeType::GS1DataBarTruncated => 76,
                    BarcodeType::GS1DataBarLimited => 77,
                    BarcodeType::GS1DataBarExpanded => 78,
                };
                let n: u8 = b.len() as u8;
                proof {
                    assert(type_value == barcode_type_code(kind));
                    assert(n == low_byte(b@.len() as int));
                }
                let c5 = command::barcode_print(type_value, n, b.as_slice());
                command::append_bytes(&mut self.cmds, c5.as_slice());
                proof {
                    assert(self.cmds@ =~= old(self).cmds@ + barcode_sequence(kind, options, b@));
                }
                Ok(())
            },
        }
    }

    fn cash_draw(&mut self, pin: CashDrawerPin) {
        let m: u8 = match pin {
            CashDrawerPin::TwoPin => 0,
            CashDrawerPin::FivePin => 1,
        };
        let c = command::cash_draw(m, 0x19, 0x78);
        command::append_bytes(&mut self.cmds, c.as_slice());
    }

    fn initialize(&mut self) {
        let c = command::initialize();
        command::append_bytes(&mut self.cmds, c.as_slice());
    }

    fn get_data(&self) -> (r: Vec<u8>) {
        let mut out: Vec<u8> = Vec::new();
        command::append_bytes(&mut out, self.cmds.as_slice());
        out
    }

    fn clear(&mut self) {
        self.cmds.clear();
    }
}

impl Default for QRCodeModel {
    fn default() -> (r: Self)
        ensures
            r == QRCodeModel::Model2,
    {
        QRCodeModel::Model2
    }
}

impl Default for QRCodeOptions {
    fn default() -> (r: Self)
        ensures
            r == (QRCodeOptions {
                model: QRCodeModel::Model2,
                cell_size: QRCodeCellSize::Size3,
                correction: QRCodeCorrection::L,
            }),
    {
        QRCodeOptions {
            model: QRCodeModel::Model2,
            cell_size: QRCodeCellSize::Size3,
            correction: QRCodeCorrection::L,
        }
    }
}

impl Default for Align {
    fn default() -> (r: Self)
        ensures
            r == Align::Left,
    {
        Align::Left
    }
}

impl Default for BarcodeOptions {
    fn default() -> (r: Self)
        ensures
            r == (BarcodeOptions {
                hri_position: HriPosition::Hidden,
                hri_font: TextFont::A,
                width: BarcodeWidth::Width3,
                height: 162,
            }),
    {
        BarcodeOptions {
            hri_position: HriPosition::Hidden,
            hri_font: TextFont::A,
            width: BarcodeWidth::Width3,
            height: 162,
        }
    }
}

/// Applying one operation `times` times appends exactly `times` line feeds
/// when the operation is a line feed: every appended byte is the same.
pub proof fn lemma_repeated_new_line(times: nat)
    ensures
        repeated_bytes(RepeatOp::NewLine, times).len() == times,
        forall|i: int|
            0 <= i < times ==> repeated_bytes(RepeatOp::NewLine, times)[i] == LF,
    decreases times,
{
    if times > 0 {
        lemma_repeated_new_line((times - 1) as nat);
    }
}

/// What an operation appends does not depend on the bytes already in the
/// buffer: the suffix written after any prefix is the command itself.  With
/// every operation's contract of the shape "final buffer = old buffer +
/// command bytes", encoding is a pure function of the arguments.
pub proof fn lemma_appended_bytes_state_independent(prefix: Seq<u8>, cmd: Seq<u8>)
    ensures
        (prefix + cmd).subrange(prefix.len() as int, (prefix.len() + cmd.len()) as int) == cmd,
{
    assert((prefix + cmd).subrange(prefix.len() as int, (prefix.len() + cmd.len()) as int)
        =~= cmd);
}

} // verus!
