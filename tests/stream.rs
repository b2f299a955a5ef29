use tabcheck::check::{file_checks, CellStream, RecordEvent};
use tabcheck::checkfailure::{
    CellCheckFailure, CellCheckSubFailure, CheckFailure, Failure, FileCheckFailure,
};
use tabcheck::location::Location;
use tabcheck::settings::{CellChecker, FileSettingsByCol};

fn any_two() -> FileSettingsByCol {
    FileSettingsByCol::new(vec![CellChecker::SymbolOrAlias, CellChecker::SymbolOrAlias])
}

fn records(input: &[u8]) -> Vec<RecordEvent> {
    let mut rdr = csv::ReaderBuilder::new()
        .delimiter(b'\t')
        .has_headers(false)
        .from_reader(input);
    let mut record = csv::ByteRecord::new();
    let mut out = Vec::new();
    loop {
        match rdr.read_byte_record(&mut record) {
            Ok(true) => out.push(RecordEvent::Record(record.iter().map(|c| c.to_vec()).collect())),
            Ok(false) => {
                out.push(RecordEvent::End);
                return out;
            }
            Err(e) => {
                out.push(RecordEvent::ParseError(e.to_string()));
                return out;
            }
        }
    }
}

fn run(settings: FileSettingsByCol, input: &[u8]) -> Vec<Failure> {
    let mut stream: CellStream<FileSettingsByCol> = file_checks(settings);
    let mut out = Vec::new();
    for ev in records(input) {
        out.extend(stream.step(ev));
    }
    assert!(stream.is_finished());
    out
}

fn summary(f: &Failure) -> (Vec<String>, Vec<u8>, Option<(u64, usize)>) {
    match f {
        Failure::File(ff) => (vec![ff.reason.clone()], Vec::new(), None),
        Failure::Cell(c) => (
            c.failures.iter().map(|s| s.reason.clone()).collect(),
            c.contents.clone(),
            Some((c.location.row, c.location.col)),
        ),
    }
}

#[test]
fn two_rows_end_to_end() {
    let out = run(any_two(), b"\t\nok\t \n");
    let got: Vec<_> = out.iter().map(summary).collect();
    assert_eq!(
        got,
        vec![
            (vec!["empty cell".to_string()], vec![], Some((0, 0))),
            (vec!["empty cell".to_string()], vec![], Some((0, 1))),
            // a single space is both the first and the last byte: the first
            // position decides
            (vec!["leading whitespace".to_string()], b" ".to_vec(), Some((1, 1))),
        ]
    );
}

#[test]
fn same_bytes_same_failures() {
    let input: &[u8] = b"a\t\t \nb c\td\te\n\t\xff\n";
    let a: Vec<_> = run(any_two(), input).iter().map(summary).collect();
    let b: Vec<_> = run(any_two(), &input.to_vec()).iter().map(summary).collect();
    assert_eq!(a, b);
    assert_eq!(a.len(), 5);
}

#[test]
fn parse_error_ends_pass() {
    let mut s = file_checks(any_two());
    let out = s.step(RecordEvent::ParseError(String::from("bad framing")));
    assert_eq!(out.len(), 1);
    assert_eq!(out[0].reason(), "CSV parsing error: bad framing");
    assert!(s.is_finished());
    let later = s.step(RecordEvent::Record(vec![Vec::new()]));
    assert!(later.is_empty());
    assert_eq!(s.row(), 0);
}

#[test]
fn uneven_records_from_reader_are_a_file_failure() {
    let out = run(any_two(), b"a\tb\nc\n");
    assert_eq!(out.len(), 1);
    match &out[0] {
        Failure::File(f) => assert!(f.reason.starts_with("CSV parsing error: ")),
        _ => panic!("expected a file failure"),
    }
}

#[test]
fn rows_count_up() {
    let mut s = file_checks(any_two());
    assert!(s.step(RecordEvent::Record(vec![b"x".to_vec()])).is_empty());
    let out = s.step(RecordEvent::Record(vec![b"x".to_vec(), b"y".to_vec(), b"z".to_vec()]));
    assert_eq!(s.row(), 2);
    assert_eq!(out.len(), 1);
    assert_eq!(out[0].reason(), "unexpected cell at location C2\n");
    assert!(s.step(RecordEvent::End).is_empty());
    assert!(s.is_finished());
}

#[test]
fn cell_failure_messages() {
    let f = CellCheckFailure {
        failures: vec![
            CellCheckSubFailure { reason: String::from("one") },
            CellCheckSubFailure { reason: String::from("two") },
        ],
        contents: b"a\"b".to_vec(),
        location: Location { row: 0, col: 27 },
    };
    assert_eq!(f.reason(), "one\ntwo\n");
    assert_eq!(f.plaintext_message(), "one\ntwo\n  in cell AB1\n  contents: \"a\\\"b\"");
    let g = CellCheckFailure {
        failures: vec![CellCheckSubFailure { reason: String::from("bad") }],
        contents: vec![255, 65],
        location: Location { row: 9, col: 0 },
    };
    assert_eq!(g.plaintext_message(), "bad\n  in cell A10\n  contents: [255, 65]");
    let h = Failure::Cell(g.clone());
    assert_eq!(h.plaintext_message(), g.plaintext_message());
}

#[test]
fn file_failure_messages() {
    let f = FileCheckFailure { reason: String::from("broken") };
    assert_eq!(f.reason(), "broken");
    assert_eq!(f.plaintext_message(), "broken");
    assert_eq!(Failure::File(f).plaintext_message(), "broken");
}
