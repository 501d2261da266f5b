use photo_widget::paths::is_image_path;

#[test]
fn image_extensions_any_case() {
    for p in ["a.jpg", "dir/b.JPEG", "c.Png", "/x/y/d.gif", "e.BMP", "C:\\pics\\f.JpG", "g.jpeg"] {
        assert!(is_image_path(p), "{}", p);
    }
}

#[test]
fn other_extensions_rejected() {
    for p in ["a.txt", "b.jpgx", "c.tiff", "d.webp", "noext", "e.jpg.txt", "f.", "g.pn"] {
        assert!(!is_image_path(p), "{}", p);
    }
}

#[test]
fn hidden_file_name_is_no_extension() {
    assert!(!is_image_path(".jpg"));
    assert!(!is_image_path("dir/.png"));
    assert!(is_image_path("dir/.hidden.png"));
}

#[test]
fn dot_in_directory_does_not_count() {
    assert!(!is_image_path("photos.jpg/readme"));
    assert!(!is_image_path(""));
}

#[test]
fn non_ascii_letters_are_not_folded() {
    assert!(!is_image_path("a.jpġ"));
    assert!(is_image_path("фото.jpg"));
}
