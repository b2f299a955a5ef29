use tabcheck::check::{cell_check_empty, cell_checks, cell_checks_whitespace, check_cell};
use tabcheck::checkfailure::CellCheckSubFailure;
use tabcheck::location::Location;
use tabcheck::settings::{
    cell_check_bxname, cell_check_id_u32, cell_check_optional_bxname, cell_check_symbol_or_alias,
    cell_is_NA, CellChecker, FileSettingsByCol, CELL_CHECK_BXNAME_RE,
};

fn reasons(v: &[CellCheckSubFailure]) -> Vec<String> {
    v.iter().map(|f| f.reason.clone()).collect()
}

fn whitespace(cell: &[u8]) -> Vec<String> {
    let mut v = Vec::new();
    cell_checks_whitespace(cell, &mut v);
    reasons(&v)
}

fn strain() -> FileSettingsByCol {
    FileSettingsByCol::strain_file().unwrap()
}

fn checked(cell: &[u8], checker: &CellChecker) -> Vec<String> {
    let mut v = Vec::new();
    cell_checks(cell, checker, &mut v);
    reasons(&v)
}

#[test]
fn empty_cell_only_reason() {
    let f = cell_check_empty(b"").unwrap();
    assert_eq!(f.reason, "empty cell");
    assert!(cell_check_empty(b" ").is_none());
    // the id check would complain about an empty cell; it must not run
    assert_eq!(checked(b"", &CellChecker::IdU32), vec!["empty cell"]);
}

#[test]
fn leading_whitespace() {
    assert_eq!(whitespace(b" ab"), vec!["leading whitespace"]);
    assert_eq!(whitespace(b" "), vec!["leading whitespace"]);
    assert_eq!(checked(b" x", &CellChecker::IdU32), vec!["leading whitespace"]);
}

#[test]
fn trailing_whitespace() {
    assert_eq!(whitespace(b"ab "), vec!["trailing whitespace"]);
    assert_eq!(whitespace(b"ab\t"), vec!["trailing whitespace"]);
}

#[test]
fn middle_whitespace_first_only() {
    assert_eq!(whitespace(b"a b c "), vec!["whitespace in the middle"]);
    assert_eq!(whitespace(b"a\r\nb"), vec!["whitespace in the middle"]);
}

#[test]
fn vertical_tab_is_not_ascii_whitespace() {
    assert!(whitespace(b"a\x0bb").is_empty());
}

#[test]
fn unicode_whitespace_position() {
    // U+3000 IDEOGRAPHIC SPACE after one ASCII byte
    assert_eq!(
        whitespace("a\u{3000}b".as_bytes()),
        vec!["whitespace (in cell with unicode) at pos 1"]
    );
    assert_eq!(
        whitespace("ab\u{e9}\u{a0}".as_bytes()),
        vec!["whitespace (in cell with unicode) at pos 3"]
    );
}

#[test]
fn clean_unicode_cell_passes() {
    assert!(whitespace("caf\u{e9}".as_bytes()).is_empty());
    assert!(whitespace("\u{e9}\u{e9}x".as_bytes()).is_empty());
}

#[test]
fn decode_error_reason() {
    assert_eq!(
        whitespace(b"a\xffb"),
        vec!["UTF-8 decoding error: invalid utf-8 sequence of 1 bytes from index 0"]
    );
    assert_eq!(
        checked(b"1\xc3", &CellChecker::IdU32),
        vec!["UTF-8 decoding error: incomplete utf-8 byte sequence from index 0"]
    );
}

#[test]
fn domain_check_runs_on_clean_cell() {
    assert_eq!(
        checked(b"0", &CellChecker::IdU32),
        vec!["cell_check_id_u32: IDs must be natural numbers, starting from 1; got 0"]
    );
    assert!(checked(b"17", &CellChecker::IdU32).is_empty());
    assert!(checked(b"anything", &CellChecker::SymbolOrAlias).is_empty());
}

#[test]
fn domain_check_appends_after_existing() {
    let mut v = vec![CellCheckSubFailure { reason: String::from("earlier") }];
    cell_check_id_u32(b"x", &mut v);
    assert_eq!(
        reasons(&v),
        vec!["earlier", "cell_check_id_u32: invalid digit found in string"]
    );
}

#[test]
fn id_u32_parse_errors() {
    let mut v = Vec::new();
    cell_check_id_u32(b"4294967296", &mut v);
    cell_check_id_u32(b"+", &mut v);
    cell_check_id_u32(b"-1", &mut v);
    cell_check_id_u32(b"4294967295", &mut v);
    cell_check_id_u32(b"+12", &mut v);
    assert_eq!(
        reasons(&v),
        vec![
            "cell_check_id_u32: number too large to fit in target type",
            "cell_check_id_u32: cannot parse integer from empty string",
            "cell_check_id_u32: invalid digit found in string",
        ]
    );
}

#[test]
fn na_marker() {
    assert!(cell_is_NA(b"\\N"));
    assert!(!cell_is_NA(b"N"));
    assert!(!cell_is_NA(b"\\N\\N"));
}

#[test]
fn bxname_checks() {
    let s = strain();
    let re = match &s.checkers[1] {
        CellChecker::BxName(re) => re,
        _ => panic!("column 1 is the name"),
    };
    let mut v = Vec::new();
    cell_check_bxname(re, b"BXD/Ty", &mut v);
    cell_check_bxname(re, b"12/abc", &mut v);
    assert!(v.is_empty());
    cell_check_bxname(re, b"a!b", &mut v);
    assert_eq!(
        reasons(&v),
        vec![format!("cell_check_bxname: not matching {}", CELL_CHECK_BXNAME_RE)]
    );
    let mut w = Vec::new();
    cell_check_optional_bxname(re, b"\\N", &mut w);
    assert!(w.is_empty());
    cell_check_optional_bxname(re, b"a!b", &mut w);
    assert_eq!(w.len(), 1);
    let mut x = Vec::new();
    cell_check_symbol_or_alias(b"!!", &mut x);
    assert!(x.is_empty());
}

#[test]
fn unexpected_location() {
    let s = strain();
    let f = check_cell(&s, Location { row: 2, col: 6 }, b"fine").unwrap();
    assert_eq!(reasons(&f.failures), vec!["unexpected cell at location G3"]);
    assert_eq!(f.contents, b"fine".to_vec());
    assert_eq!(f.location, Location { row: 2, col: 6 });
    // unexpected columns are reported even for empty cells
    let g = check_cell(&s, Location { row: 0, col: 7 }, b"").unwrap();
    assert_eq!(reasons(&g.failures), vec!["unexpected cell at location H1"]);
}

#[test]
fn check_cell_passes_and_fails() {
    let s = strain();
    assert!(check_cell(&s, Location { row: 0, col: 0 }, b"5").is_none());
    let f = check_cell(&s, Location { row: 4, col: 3 }, b"0").unwrap();
    assert_eq!(
        reasons(&f.failures),
        vec!["cell_check_id_u32: IDs must be natural numbers, starting from 1; got 0"]
    );
}
