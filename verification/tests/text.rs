use flasher::text::{ends_with, same_text, trim};

#[test]
fn trim_strips_both_ends() {
    assert_eq!(trim("  /mnt/kbd \n"), "/mnt/kbd");
    assert_eq!(trim("\t q\r\n"), "q");
}

#[test]
fn trim_keeps_inner_white_space() {
    assert_eq!(trim(" my dir / sub "), "my dir / sub");
}

#[test]
fn trim_of_blank_is_empty() {
    assert_eq!(trim(""), "");
    assert_eq!(trim(" \t\r\n"), "");
}

#[test]
fn trim_leaves_clean_text_alone() {
    assert_eq!(trim("left"), "left");
}

#[test]
fn trim_knows_unicode_white_space() {
    assert_eq!(trim("\u{a0}\u{3000}dir\u{2003}"), "dir");
    assert_eq!(trim("\u{200b}dir"), "\u{200b}dir");
}

#[test]
fn each_white_space_character_is_stripped() {
    let white = [
        '\u{9}', '\u{a}', '\u{b}', '\u{c}', '\u{d}', '\u{20}', '\u{85}', '\u{a0}', '\u{1680}',
        '\u{2000}', '\u{2001}', '\u{2002}', '\u{2003}', '\u{2004}', '\u{2005}', '\u{2006}',
        '\u{2007}', '\u{2008}', '\u{2009}', '\u{200a}', '\u{2028}', '\u{2029}', '\u{202f}',
        '\u{205f}', '\u{3000}',
    ];
    assert_eq!(white.len(), 25);
    for c in white {
        let line = format!("{}dir{}", c, c);
        assert_eq!(trim(&line), "dir");
    }
}

#[test]
fn neighbours_of_white_space_are_kept() {
    let kept = [
        '\u{8}', '\u{e}', '\u{1f}', '\u{21}', '\u{84}', '\u{86}', '\u{9f}', '\u{a1}', '\u{167f}',
        '\u{1681}', '\u{180e}', '\u{1fff}', '\u{200b}', '\u{2027}', '\u{202a}', '\u{202e}',
        '\u{2030}', '\u{205e}', '\u{2060}', '\u{2fff}', '\u{3001}', '\u{feff}', 'q',
    ];
    for c in kept {
        let line = format!("{}dir{}", c, c);
        assert_eq!(trim(&line), line);
    }
}

#[test]
fn trim_counts_characters_not_bytes() {
    assert_eq!(trim(" \u{e9}t\u{e9} "), "\u{e9}t\u{e9}");
}

#[test]
fn ends_with_finds_suffix() {
    assert!(ends_with("fw-left.uf2", ".uf2"));
    assert!(ends_with("fw-left.uf2", "fw-left.uf2"));
    assert!(ends_with("fw-left.uf2", ""));
}

#[test]
fn ends_with_rejects_other_text() {
    assert!(!ends_with("fw-left.uf2", ".uf3"));
    assert!(!ends_with("uf2", ".uf2"));
    assert!(!ends_with("fw-left.uf2.bak", ".uf2"));
}

#[test]
fn same_text_compares_whole_strings() {
    assert!(same_text("q", "q"));
    assert!(same_text("", ""));
    assert!(!same_text("q", "Q"));
    assert!(!same_text("qq", "q"));
    assert!(!same_text("q", "xq"));
}
