use thermal_printer::command;
use thermal_printer::CharacterSet;

#[test]
fn alignment_bytes_exact() {
    assert_eq!(command::alignment(0), [0x1b, 0x61, 0]);
    assert_eq!(command::alignment(1), [0x1b, 0x61, 1]);
    assert_eq!(command::alignment(2), [0x1b, 0x61, 2]);
}

#[test]
fn barcode_config_bytes_exact() {
    assert_eq!(command::barcode_height(100), [0x1d, 0x68, 100]);
    assert_eq!(command::barcode_hri_font(0), [0x1d, 0x66, 0]);
    assert_eq!(command::barcode_hri_position(1), [0x1d, 0x48, 1]);
    assert_eq!(command::barcode_width(2), [0x1d, 0x77, 2]);
}

#[test]
fn barcode_print_bytes_exact() {
    let data = [1u8, 2, 3, 4, 5];
    let cmd = command::barcode_print(73, 5, &data);
    assert_eq!(cmd, vec![0x1d, 0x6b, 73, 5, 1, 2, 3, 4, 5]);
}

#[test]
fn cash_draw_bytes_exact() {
    assert_eq!(command::cash_draw(0, 120, 240), [0x1b, 0x70, 0, 120, 240]);
}

#[test]
fn character_code_table_bytes_exact() {
    assert_eq!(command::character_code_table(16), [0x1b, 0x74, 16]);
}

#[test]
fn cut_bytes_exact() {
    assert_eq!(command::cut(48, None), vec![0x1d, 0x56, 48]);
    assert_eq!(command::cut(49, None), vec![0x1d, 0x56, 49]);
    assert_eq!(command::cut(65, Some(3)), vec![0x1d, 0x56, 65, 3]);
}

#[test]
fn cut_without_trailing_byte_is_strictly_shorter() {
    assert_eq!(command::cut(48, None).len() + 1, command::cut(48, Some(0)).len());
}

#[test]
fn cut_modes_differ_only_in_final_byte() {
    let full = command::cut(48, None);
    let partial = command::cut(49, None);
    assert_eq!(full.len(), partial.len());
    assert_eq!(full[..full.len() - 1], partial[..partial.len() - 1]);
    assert_eq!(*full.last().unwrap(), 48);
    assert_eq!(*partial.last().unwrap(), 49);
}

#[test]
fn image_bytes_exact() {
    let data = [0xffu8, 0xff, 0xff, 0xff];
    let cmd = command::image(0, 2, 0, 2, 0, &data);
    assert_eq!(cmd, vec![0x1d, 0x76, 0x30, 0, 2, 0, 2, 0, 0xff, 0xff, 0xff, 0xff]);
}

#[test]
fn initialize_bytes_exact() {
    assert_eq!(command::initialize(), [0x1b, 0x40]);
}

#[test]
fn international_character_set_bytes_exact() {
    assert_eq!(command::international_character_set(0x08), [0x1b, 0x52, 0x08]);
}

#[test]
fn invert_bytes_exact() {
    assert_eq!(command::invert(1), [0x1d, 0x42, 1]);
}

#[test]
fn qr_code_command_bytes_exact() {
    assert_eq!(command::qr_code_cell_size(5), [0x1d, 0x28, 0x6b, 0x03, 0x00, 0x31, 0x43, 5]);
    assert_eq!(
        command::qr_code_correction_level(48),
        [0x1d, 0x28, 0x6b, 0x03, 0x00, 0x31, 0x45, 48]
    );
    assert_eq!(
        command::qr_code_model(50, None),
        [0x1d, 0x28, 0x6b, 0x04, 0x00, 0x31, 0x41, 50, 0]
    );
    assert_eq!(
        command::qr_code_model(49, Some(1)),
        [0x1d, 0x28, 0x6b, 0x04, 0x00, 0x31, 0x41, 49, 1]
    );
    assert_eq!(command::qr_code_print(), [0x1d, 0x28, 0x6b, 0x03, 0x00, 0x31, 0x51, 48]);
}

#[test]
fn qr_code_store_bytes_exact() {
    let data = [0x41u8, 0x42, 0x43];
    let cmd = command::qr_code_store(6, 0, &data);
    assert_eq!(cmd, vec![0x1d, 0x28, 0x6b, 6, 0, 0x31, 0x50, 0x30, 0x41, 0x42, 0x43]);
}

#[test]
fn text_style_bytes_exact() {
    assert_eq!(command::text_bold(1), [0x1b, 0x45, 1]);
    assert_eq!(command::text_font(1), [0x1b, 0x4d, 1]);
    assert_eq!(command::text_mode(0), [0x1b, 0x21, 0]);
    assert_eq!(command::text_size(0x11), [0x1d, 0x21, 0x11]);
    assert_eq!(command::text_underline(2), [0x1b, 0x2d, 2]);
}

#[test]
fn character_set_selects_code_table_or_international_set() {
    assert_eq!(command::character_set(&CharacterSet::Pc437Usa), [0x1b, 0x74, 0]);
    assert_eq!(command::character_set(&CharacterSet::Wpc1252), [0x1b, 0x74, 16]);
    assert_eq!(command::character_set(&CharacterSet::Pc852Latin2), [0x1b, 0x74, 18]);
    assert_eq!(command::character_set(&CharacterSet::Slovenia), [0x1b, 0x74, 18]);
    assert_eq!(command::character_set(&CharacterSet::Kz1048Kazakhstan), [0x1b, 0x74, 53]);
    assert_eq!(command::character_set(&CharacterSet::Japan), [0x1b, 0x52, 0x08]);
    assert_eq!(command::character_set(&CharacterSet::Korea), [0x1b, 0x52, 0x0d]);
    assert_eq!(command::character_set(&CharacterSet::China), [0x1b, 0x52, 0x0f]);
    assert_eq!(command::character_set(&CharacterSet::HkTw), [0x1b, 0x52, 0x00]);
}

#[test]
fn command_encoding_is_pure() {
    assert_eq!(command::alignment(1), command::alignment(1));
    assert_eq!(command::cut(48, None), command::cut(48, None));
    assert_eq!(command::barcode_print(73, 2, &[7, 9]), command::barcode_print(73, 2, &[7, 9]));
    assert_eq!(command::qr_code_store(3, 0, &[]), command::qr_code_store(3, 0, &[]));
    assert_eq!(
        command::character_set(&CharacterSet::Japan),
        command::character_set(&CharacterSet::Japan)
    );
}

#[test]
fn codepage_names_match_table() {
    assert_eq!(CharacterSet::Pc437Usa.codepage(), "CP437");
    assert_eq!(CharacterSet::Wpc1252.codepage(), "CP1252");
    assert_eq!(CharacterSet::Slovenia.codepage(), "CP852");
    assert_eq!(CharacterSet::Japan.codepage(), "EUC-JP");
    assert_eq!(CharacterSet::China.codepage(), "GB18030");
    assert_eq!(CharacterSet::HkTw.codepage(), "Big5-HKSCS");
}
