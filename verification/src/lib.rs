use vstd::prelude::*;

pub mod character_set;
pub mod command;
pub mod image;
pub mod pixel;
pub mod printer;
pub mod transcode;

pub use character_set::CharacterSet;
pub use image::Image;
pub use pixel::Pixel;
pub use printer::{
    Align, BarcodeOptions, BarcodeType, BarcodeWidth, BasePrinter, CashDrawerPin, HriPosition,
    PrintError, Printer, QRCodeCellSize, QRCodeCorrection, QRCodeModel, QRCodeOptions, RepeatOp,
    TextFont, TextSize, TextUnderline,
};

verus! {

/// Escape: prefix of most single-parameter commands.
pub const ESC: u8 = 0x1b;

/// Group separator: prefix of barcode, raster and two-dimensional commands.
pub const GS: u8 = 0x1d;

/// Line feed: advances the paper by one line.
pub const LF: u8 = 0x0a;

} // verus!
