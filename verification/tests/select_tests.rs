use image_flipper::select::{
    is_any_eligible, is_explicit_eligible, select_any_eligible, select_explicit, FileEntry,
};

fn entry(name: &str, is_file: bool) -> FileEntry {
    FileEntry { name: name.to_string(), is_file }
}

#[test]
fn explicit_mode_selects_exactly_the_matching_extension() {
    let entries = vec![entry("x.png", true), entry("y.jpg", true), entry("z.txt", true)];
    let selected = select_explicit(&entries, "jpg");
    assert_eq!(selected, vec!["y.jpg".to_string()]);
}

#[test]
fn explicit_mode_takes_the_filter_literally() {
    let entries = vec![entry("x.png", true), entry("y.jpg", true), entry("z.txt", true)];
    assert_eq!(select_explicit(&entries, "txt"), vec!["z.txt".to_string()]);
    assert!(select_explicit(&entries, "webp").is_empty());
    assert!(select_explicit(&entries, "JPG").is_empty());
}

#[test]
fn explicit_mode_skips_directories() {
    let entries = vec![entry("x.jpg", true), entry("dir.jpg", false)];
    assert_eq!(select_explicit(&entries, "jpg"), vec!["x.jpg".to_string()]);
}

#[test]
fn any_eligible_mode_selects_images_not_in_the_target_format() {
    let entries = vec![entry("x.png", true), entry("y.jpg", true), entry("z.webp", true)];
    let selected = select_any_eligible(&entries, "webp");
    assert_eq!(selected, vec!["x.png".to_string(), "y.jpg".to_string()]);
}

#[test]
fn any_eligible_mode_skips_non_images_directories_and_bare_names() {
    let entries = vec![
        entry("x.png", true),
        entry("notes.txt", true),
        entry("folder.png", false),
        entry("README", true),
    ];
    assert_eq!(select_any_eligible(&entries, "webp"), vec!["x.png".to_string()]);
}

#[test]
fn selection_on_an_empty_listing_is_empty() {
    let entries: Vec<FileEntry> = Vec::new();
    assert!(select_explicit(&entries, "jpg").is_empty());
    assert!(select_any_eligible(&entries, "webp").is_empty());
}

#[test]
fn eligibility_predicates_match_the_policies() {
    assert!(is_explicit_eligible(&entry("y.jpg", true), "jpg"));
    assert!(!is_explicit_eligible(&entry("y.jpg", false), "jpg"));
    assert!(!is_explicit_eligible(&entry("y.jpeg", true), "jpg"));
    assert!(is_any_eligible(&entry("x.png", true), "webp"));
    assert!(!is_any_eligible(&entry("z.webp", true), "webp"));
    assert!(!is_any_eligible(&entry("z.txt", true), "webp"));
}
