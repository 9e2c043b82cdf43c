use sc2f::FileExtension;

const IMAGES: [&str; 5] = ["jpg", "png", "jpeg", "webp", "svg"];

#[test]
fn extension_matches_ignoring_case() {
    assert!("photos/a.JPG".has_extension(&IMAGES));
    assert!("b.png".has_extension(&IMAGES));
    assert!("dir.d/c.WebP".has_extension(&IMAGES));
}

#[test]
fn other_or_missing_extension_does_not_match() {
    assert!(!"notes.txt".has_extension(&IMAGES));
    assert!(!"jpg".has_extension(&IMAGES));
    assert!(!".png".has_extension(&IMAGES));
    assert!(!"a.jpgx".has_extension(&IMAGES));
    assert!(!"a.png".has_extension(&[]));
}

#[test]
fn extension_is_taken_after_last_dot() {
    assert!("archive.tar.png".has_extension(&IMAGES));
    assert!(!"image.png.bak".has_extension(&IMAGES));
}
