use photo_widget::geometry::Size;
use photo_widget::playlist::{select_images, OrientationFilter, Playlist, ScannedFile};
use std::collections::HashSet;

fn file(path: &str, w: u32, h: u32) -> ScannedFile {
    ScannedFile { path: path.to_string(), dims: Some(Size { width: w, height: h }) }
}

fn unreadable(path: &str) -> ScannedFile {
    ScannedFile { path: path.to_string(), dims: None }
}

fn sample() -> Vec<ScannedFile> {
    vec![
        file("a/wide.jpg", 800, 600),
        file("a/tall.PNG", 600, 800),
        file("a/square.gif", 500, 500),
        file("a/notes.txt", 800, 600),
        unreadable("a/broken.jpeg"),
        file("b/other.bmp", 300, 900),
        file("a/wide.jpg", 800, 600),
    ]
}

#[test]
fn select_keeps_images_in_order_without_repeats() {
    let r = select_images(&sample(), OrientationFilter::Both);
    assert_eq!(r, vec!["a/wide.jpg", "a/tall.PNG", "a/square.gif", "b/other.bmp"]);
}

#[test]
fn select_never_keeps_other_extensions() {
    let files = vec![file("x.txt", 10, 10), file("y.webp", 10, 10), file("z.JPG", 10, 10)];
    assert_eq!(select_images(&files, OrientationFilter::Both), vec!["z.JPG"]);
}

#[test]
fn select_landscape_includes_square() {
    let r = select_images(&sample(), OrientationFilter::Landscape);
    assert_eq!(r, vec!["a/wide.jpg", "a/square.gif"]);
}

#[test]
fn select_portrait_only_taller() {
    let r = select_images(&sample(), OrientationFilter::Portrait);
    assert_eq!(r, vec!["a/tall.PNG", "b/other.bmp"]);
}

#[test]
fn rebuild_is_permutation_of_selection() {
    let p = Playlist::from_scan(&sample(), OrientationFilter::Both);
    assert_eq!(p.position(), 0);
    let mut got: Vec<String> = p.paths().clone();
    got.sort();
    let mut want: Vec<String> = select_images(&sample(), OrientationFilter::Both);
    want.sort();
    assert_eq!(got, want);
}

#[test]
fn rebuild_shuffles_order() {
    let files: Vec<ScannedFile> = (0..12).map(|i| file(&format!("p{}.jpg", i), 10, 10)).collect();
    let in_order = select_images(&files, OrientationFilter::Both);
    let mut differs = false;
    for _ in 0..20 {
        let p = Playlist::from_scan(&files, OrientationFilter::Both);
        if *p.paths() != in_order {
            differs = true;
        }
    }
    assert!(differs);
}

#[test]
fn advance_visits_every_path_once_per_pass() {
    let mut p = Playlist::from_scan(&sample(), OrientationFilter::Both);
    let n = p.len();
    assert_eq!(n, 4);
    let first_order = p.paths().clone();
    let mut seen = Vec::new();
    for _ in 0..n {
        seen.push(p.advance().unwrap());
    }
    assert_eq!(seen, first_order);
    let distinct: HashSet<&String> = seen.iter().collect();
    assert_eq!(distinct.len(), n);
    assert_eq!(p.position(), 0);
    assert_eq!(p.len(), n);
}

#[test]
fn advance_second_pass_is_again_complete() {
    let mut p = Playlist::from_scan(&sample(), OrientationFilter::Both);
    let n = p.len();
    for _ in 0..n {
        p.advance();
    }
    let mut second: Vec<String> = (0..n).map(|_| p.advance().unwrap()).collect();
    second.sort();
    let mut want = select_images(&sample(), OrientationFilter::Both);
    want.sort();
    assert_eq!(second, want);
}

#[test]
fn advance_on_empty_playlist_yields_nothing() {
    let mut p = Playlist::new();
    assert!(p.is_empty());
    assert_eq!(p.advance(), None);
    assert_eq!(p.position(), 0);
    let mut q = Playlist::from_scan(&vec![file("a.txt", 1, 1)], OrientationFilter::Both);
    assert_eq!(q.advance(), None);
}

#[test]
fn advance_single_path_repeats() {
    let mut p = Playlist::from_scan(&vec![file("only.jpg", 5, 5)], OrientationFilter::Both);
    assert_eq!(p.advance().as_deref(), Some("only.jpg"));
    assert_eq!(p.advance().as_deref(), Some("only.jpg"));
    assert_eq!(p.position(), 0);
}
