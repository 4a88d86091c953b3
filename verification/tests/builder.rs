use thermal_printer::{
    Align, BarcodeOptions, BarcodeType, BarcodeWidth, BasePrinter, CashDrawerPin, CharacterSet,
    HriPosition, Image, Pixel, PrintError, Printer, QRCodeOptions, RepeatOp, TextFont, TextSize,
    TextUnderline,
};

#[test]
fn fresh_builder_is_empty() {
    let p = BasePrinter::default();
    assert_eq!(p.get_data(), Vec::<u8>::new());
}

#[test]
fn style_operations_append_exact_commands() {
    let mut p = BasePrinter::default();
    p.set_text_bold(true);
    p.set_text_bold(false);
    p.set_text_font(TextFont::SpecialA);
    p.set_text_underline(TextUnderline::TwoDotThick);
    p.set_text_underline(TextUnderline::Off);
    p.set_text_normal();
    p.set_align(Align::Center);
    p.set_align(Align::default());
    p.invert(true);
    assert_eq!(
        p.get_data(),
        vec![
            0x1b, 0x45, 1, // bold on
            0x1b, 0x45, 0, // bold off
            0x1b, 0x4d, 97, // special font A
            0x1b, 0x2d, 2, // underline, two dots
            0x1b, 0x2d, 0, // underline off
            0x1b, 0x21, 0, // normal print mode
            0x1b, 0x61, 1, // centre
            0x1b, 0x61, 0, // default: left
            0x1d, 0x42, 1, // inverted printing
        ]
    );
}

#[test]
fn text_size_combines_width_and_height_nibbles() {
    let mut p = BasePrinter::default();
    p.set_text_size(TextSize::Size2, TextSize::Size2);
    p.set_text_size(TextSize::Size1, TextSize::Size8);
    p.set_text_size(TextSize::Size8, TextSize::Size1);
    assert_eq!(p.get_data(), vec![0x1d, 0x21, 0x11, 0x1d, 0x21, 0x07, 0x1d, 0x21, 0x70]);
}

#[test]
fn new_line_and_raw_append_verbatim() {
    let mut p = BasePrinter::default();
    p.new_line();
    p.raw(&[1, 2, 3]);
    assert_eq!(p.get_data(), vec![0x0a, 1, 2, 3]);
}

#[test]
fn cut_full_and_partial() {
    let mut full = BasePrinter::default();
    full.cut(false);
    let mut partial = BasePrinter::default();
    partial.cut(true);
    let f = full.get_data();
    let p = partial.get_data();
    assert_eq!(f.len(), p.len());
    assert_eq!(f[..f.len() - 1], p[..p.len() - 1]);
    assert_eq!(*f.last().unwrap(), 48);
    assert_eq!(*p.last().unwrap(), 49);
}

#[test]
fn cash_draw_emits_pulse_pair() {
    let mut p = BasePrinter::default();
    p.cash_draw(CashDrawerPin::TwoPin);
    p.cash_draw(CashDrawerPin::FivePin);
    assert_eq!(
        p.get_data(),
        vec![0x1b, 0x70, 0, 0x19, 0x78, 0x1b, 0x70, 1, 0x19, 0x78]
    );
}

#[test]
fn initialize_emits_reset() {
    let mut p = BasePrinter::default();
    p.initialize();
    assert_eq!(p.get_data(), vec![0x1b, 0x40]);
}

#[test]
fn operations_are_pure() {
    let mut p1 = BasePrinter::default();
    let mut p2 = BasePrinter::default();
    p1.set_align(Align::Right);
    p1.set_text_bold(true);
    p1.cut(false);
    p2.set_align(Align::Right);
    p2.set_text_bold(true);
    p2.cut(false);
    assert_eq!(p1.get_data(), p2.get_data());
}

#[test]
fn text_transcodes_with_active_character_set() {
    let mut p = BasePrinter::default();
    assert_eq!(p.text("ABC"), Ok(()));
    assert_eq!(p.get_data(), vec![0x41, 0x42, 0x43]);
}

#[test]
fn text_output_differs_from_utf8_input_outside_ascii() {
    let mut p = BasePrinter::default();
    p.set_character_set(CharacterSet::Wpc1252);
    assert_eq!(p.text("é"), Ok(()));
    let data = p.get_data();
    // selection command, then the single CP1252 byte, not the two UTF-8 bytes
    assert_eq!(data, vec![0x1b, 0x74, 16, 0xe9]);
}

#[test]
fn text_failure_leaves_buffer_untouched() {
    let mut p = BasePrinter::default();
    assert_eq!(p.text("ABC"), Ok(()));
    // CP437 has no euro sign
    assert_eq!(p.text("\u{20ac}"), Err(PrintError::TranscodeFailure));
    assert_eq!(p.get_data(), vec![0x41, 0x42, 0x43]);
}

#[test]
fn selecting_japan_then_text() {
    let mut p = BasePrinter::default();
    p.set_character_set(CharacterSet::Japan);
    assert_eq!(p.text("A"), Ok(()));
    assert_eq!(p.get_data(), vec![0x1b, 0x52, 0x08, 0x41]);
}

#[test]
fn clear_empties_buffer_but_keeps_character_set() {
    let mut p = BasePrinter::default();
    p.set_character_set(CharacterSet::Japan);
    p.new_line();
    p.clear();
    assert_eq!(p.get_data(), Vec::<u8>::new());
    // text after clear still transcodes with the set selected before it
    assert_eq!(p.text("A"), Ok(()));
    assert_eq!(p.get_data(), vec![0x41]);
}

#[test]
fn repeat_three_new_lines() {
    let mut p = BasePrinter::default();
    p.repeat(3, RepeatOp::NewLine);
    assert_eq!(p.get_data(), vec![0x0a, 0x0a, 0x0a]);
}

#[test]
fn repeat_zero_times_appends_nothing() {
    let mut p = BasePrinter::default();
    p.repeat(0, RepeatOp::Initialize);
    assert_eq!(p.get_data(), Vec::<u8>::new());
}

#[test]
fn qrcode_emits_five_commands_in_fixed_order() {
    let mut p = BasePrinter::default();
    assert_eq!(p.qrcode("ABC", QRCodeOptions::default()), Ok(()));
    let mut expected = Vec::new();
    expected.extend([0x1d, 0x28, 0x6b, 0x04, 0x00, 0x31, 0x41, 50, 0]); // model 2
    expected.extend([0x1d, 0x28, 0x6b, 0x03, 0x00, 0x31, 0x43, 3]); // cell size 3
    expected.extend([0x1d, 0x28, 0x6b, 0x03, 0x00, 0x31, 0x45, 48]); // correction L
    expected.extend([0x1d, 0x28, 0x6b, 6, 0, 0x31, 0x50, 0x30, 0x41, 0x42, 0x43]); // store
    expected.extend([0x1d, 0x28, 0x6b, 0x03, 0x00, 0x31, 0x51, 48]); // print
    assert_eq!(p.get_data(), expected);
}

#[test]
fn qrcode_failure_leaves_buffer_untouched() {
    let mut p = BasePrinter::default();
    assert_eq!(
        p.qrcode("\u{20ac}", QRCodeOptions::default()),
        Err(PrintError::TranscodeFailure)
    );
    assert_eq!(p.get_data(), Vec::<u8>::new());
}

#[test]
fn qrcode_oversized_payload_is_rejected() {
    let mut p = BasePrinter::default();
    let long = "A".repeat(70000);
    assert_eq!(
        p.qrcode(&long, QRCodeOptions::default()),
        Err(PrintError::OversizedPayload)
    );
    assert_eq!(p.get_data(), Vec::<u8>::new());
}

#[test]
fn barcode_emits_configuration_then_print() {
    let mut p = BasePrinter::default();
    let options = BarcodeOptions {
        hri_position: HriPosition::Bottom,
        hri_font: TextFont::A,
        width: BarcodeWidth::Width1,
        height: 50,
    };
    assert_eq!(p.barcode("123456", BarcodeType::CODABAR, options), Ok(()));
    let mut expected = Vec::new();
    expected.extend([0x1d, 0x48, 2]); // HRI below the barcode
    expected.extend([0x1d, 0x66, 0]); // HRI font A
    expected.extend([0x1d, 0x77, 1]); // width 1
    expected.extend([0x1d, 0x68, 50]); // height 50
    expected.extend([0x1d, 0x6b, 71, 6]); // CODABAR, six payload bytes
    expected.extend(*b"123456");
    assert_eq!(p.get_data(), expected);
}

#[test]
fn barcode_default_options() {
    let mut p = BasePrinter::default();
    assert_eq!(p.barcode("0", BarcodeType::UPCA, BarcodeOptions::default()), Ok(()));
    let mut expected = Vec::new();
    expected.extend([0x1d, 0x48, 0]); // HRI hidden
    expected.extend([0x1d, 0x66, 0]); // HRI font A
    expected.extend([0x1d, 0x77, 3]); // width 3
    expected.extend([0x1d, 0x68, 162]); // height 162
    expected.extend([0x1d, 0x6b, 65, 1, 0x30]); // UPC-A, one byte
    assert_eq!(p.get_data(), expected);
}

#[test]
fn barcode_oversized_payload_is_rejected() {
    let mut p = BasePrinter::default();
    let long = "1".repeat(300);
    assert_eq!(
        p.barcode(&long, BarcodeType::CODE128, BarcodeOptions::default()),
        Err(PrintError::OversizedPayload)
    );
    assert_eq!(p.get_data(), Vec::<u8>::new());
}

#[test]
fn image_builder_emits_raster_command() {
    // two columns, one row: dark then light
    let pixels = vec![Pixel::new(0, 0, 0, 255), Pixel::new(255, 255, 255, 255)];
    let img = Image::new(pixels, 2, 1);
    let mut p = BasePrinter::default();
    p.image(img);
    assert_eq!(p.get_data(), vec![0x1d, 0x76, 0x30, 0, 1, 0, 1, 0, 0x80]);
}

#[test]
fn image_builder_splits_wide_dimensions() {
    // 2056 pixels wide -> 257 raster bytes per row: low byte 1, high byte 1
    let pixels = vec![Pixel::new(0, 0, 0, 0); 2056];
    let img = Image::new(pixels, 2056, 1);
    let mut p = BasePrinter::default();
    p.image(img);
    let data = p.get_data();
    assert_eq!(&data[..8], &[0x1d, 0x76, 0x30, 0, 1, 1, 1, 0]);
    assert_eq!(data.len(), 8 + 257);
    assert!(data[8..].iter().all(|b| *b == 0));
}
