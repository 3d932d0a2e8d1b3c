use rject::listing::preview_entries;

fn owned(v: &[&str]) -> Vec<String> {
    v.iter().map(|s| s.to_string()).collect()
}

#[test]
fn ls_output_lists_files() {
    assert_eq!(preview_entries("Cargo.toml\nsrc\ntarget\n"), owned(&["Cargo.toml", "src", "target"]));
}

#[test]
fn empty_listing_has_no_entries() {
    assert_eq!(preview_entries(""), Vec::<String>::new());
}

#[test]
fn text_after_last_newline_is_dropped() {
    assert_eq!(preview_entries("a\nb"), owned(&["a"]));
    assert_eq!(preview_entries("only"), Vec::<String>::new());
}

#[test]
fn empty_lines_are_kept() {
    assert_eq!(preview_entries("\n\n"), owned(&["", ""]));
    assert_eq!(preview_entries("a\n\nb\n"), owned(&["a", "", "b"]));
}

#[test]
fn non_ascii_names() {
    assert_eq!(preview_entries("é.txt\nnaïve dir\n"), owned(&["é.txt", "naïve dir"]));
}

#[test]
fn entries_rejoin_to_listing() {
    let listing = "x\ny y\n\nz\n";
    let entries = preview_entries(listing);
    assert_eq!(entries.len(), listing.matches('\n').count());
    let mut joined = String::new();
    for e in &entries {
        assert!(!e.contains('\n'));
        joined.push_str(e);
        joined.push('\n');
    }
    assert_eq!(joined, listing);
}
