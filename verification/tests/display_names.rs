use crs_exif_cleaner::display_file_name;

#[test]
fn normalizes_macos_narrow_spaces_in_display_names() {
    let raw = "Screenshot 2026-07-10 at 4.21.06\u{202f}PM.png";
    assert_eq!(
        display_file_name(raw),
        "Screenshot 2026-07-10 at 4.21.06 PM.png"
    );
}

#[test]
fn replaces_every_kind_of_whitespace_by_a_plain_space() {
    assert_eq!(display_file_name("a\tb\nc\u{a0}d\u{3000}e"), "a b c d e");
}

#[test]
fn keeps_names_without_whitespace_unchanged() {
    assert_eq!(display_file_name("IMG_0001.HEIC"), "IMG_0001.HEIC");
    assert_eq!(display_file_name("café-ß.jpg"), "café-ß.jpg");
    assert_eq!(display_file_name(""), "");
}

#[test]
fn showing_a_shown_name_again_changes_nothing() {
    let once = display_file_name("x\u{2009}y\u{202f}z.png");
    assert_eq!(display_file_name(&once), once);
    assert_eq!(once.chars().count(), "x\u{2009}y\u{202f}z.png".chars().count());
}
