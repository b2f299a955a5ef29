//! The cell-check policy, the settings capabilities, and the per-record
//! step of the streaming driver.

use vstd::prelude::*;
use vstd::string::*;
use vstd::slice::{slice_subrange, slice_to_vec};
use crate::checkfailure::{
    CellCheckFailure, CellCheckSubFailure, Failure, FileCheckFailure, reasons,
};
use crate::location::{Location, location_text};
use crate::text::{
    ascii_white_space, char_is_whitespace, decimal, decode_utf8, is_ascii_white_space,
    push_decimal, utf8_decode, white_space,
};

verus! {

/// The checks for one kind of cell, beyond the standard ones.
pub trait CellSettings {
    /// The reasons that the extra checks give for a cell, in order.
    spec fn extra_reasons(&self, cell: Seq<u8>) -> Seq<Seq<char>>;

    /// Appends a sub-failure for each of `extra_reasons(cell)`.
    fn cell_check_more(&self, cell: &[u8], failures: &mut Vec<CellCheckSubFailure>)
        ensures
            reasons(final(failures)@) == reasons(old(failures)@) + self.extra_reasons(cell@),
    ;
}

/// The checks for one kind of file: which cell settings govern a location.
pub trait FileSettings {
    type CellSettingsT: CellSettings;

    /// The cell settings for a location, or none where no cell is expected.
    spec fn cell_settings_at(&self, loc: Location) -> Option<Self::CellSettingsT>;

    fn column_to_cellsettings(&self, loc: &Location) -> (r: Option<&Self::CellSettingsT>)
        ensures
            match r {
                Some(c) => self.cell_settings_at(*loc) == Some(*c),
                None => self.cell_settings_at(*loc) is None,
            },
    ;
}

/// The reason for an ASCII whitespace byte at position `i` of `cell`.
pub open spec fn ascii_white_space_reason(cell: Seq<u8>, i: int) -> Seq<char> {
    if i == 0 {
        "leading whitespace"@
    } else if i == cell.len() - 1 {
        "trailing whitespace"@
    } else {
        "whitespace in the middle"@
    }
}

/// The index of the first whitespace character of `t` at or after `j`.
pub open spec fn first_white_space_from(t: Seq<char>, j: int) -> Option<int>
    decreases t.len() - j,
{
    if j < 0 || j >= t.len() {
        None
    } else if white_space(t[j]) {
        Some(j)
    } else {
        first_white_space_from(t, j + 1)
    }
}

/// What the whitespace scan reports for the remainder of `cell` from byte `i`,
/// where `i` holds a byte of 128 or more.
pub open spec fn non_ascii_reason(cell: Seq<u8>, i: int) -> Option<Seq<char>> {
    match utf8_decode(cell.subrange(i, cell.len() as int)) {
        Ok(t) => match first_white_space_from(t, 0) {
            Some(j) => Some("whitespace (in cell with unicode) at pos "@ + decimal((i + j) as nat)),
            None => None,
        },
        Err(e) => Some("UTF-8 decoding error: "@ + e),
    }
}

/// The whitespace scan from byte `i` on: the first byte that is ASCII
/// whitespace, or that is 128 or more, decides the outcome.
pub open spec fn white_space_scan(cell: Seq<u8>, i: int) -> Option<Seq<char>>
    decreases cell.len() - i,
{
    if i < 0 || i >= cell.len() {
        None
    } else if ascii_white_space(cell[i]) {
        Some(ascii_white_space_reason(cell, i))
    } else if cell[i] >= 128 {
        non_ascii_reason(cell, i)
    } else {
        white_space_scan(cell, i + 1)
    }
}

/// The reason of the whitespace and encoding check for a cell, if any.
pub open spec fn white_space_problem(cell: Seq<u8>) -> Option<Seq<char>> {
    white_space_scan(cell, 0)
}

/// The reasons that the check policy gives for a cell under `cs`: the empty
/// check, else the whitespace check, else the extra checks.
pub open spec fn cell_reasons<CS: CellSettings>(cs: CS, cell: Seq<u8>) -> Seq<Seq<char>> {
    if cell.len() == 0 {
        seq!["empty cell"@]
    } else {
        match white_space_problem(cell) {
            Some(m) => seq![m],
            None => cs.extra_reasons(cell),
        }
    }
}

/// The reasons given for the cell at `loc`: an unexpected location is
/// reported instead of checking the contents.
pub open spec fn location_reasons<S: FileSettings>(s: S, loc: Location, cell: Seq<u8>) -> Seq<
    Seq<char>,
> {
    match s.cell_settings_at(loc) {
        Some(cs) => cell_reasons(cs, cell),
        None => seq!["unexpected cell at location "@ + location_text(loc)],
    }
}

/// A sub-failure "empty cell" exactly for the empty cell.
pub fn cell_check_empty(cell: &[u8]) -> (r: Option<CellCheckSubFailure>)
    ensures
        r is Some <==> cell@.len() == 0,
        r matches Some(f) ==> f.reason@ == "empty cell"@,
{
    if cell.len() == 0 {
        Some(CellCheckSubFailure { reason: String::from_str("empty cell") })
    } else {
        None
    }
}

fn push_reason(failures: &mut Vec<CellCheckSubFailure>, reason: String)
    ensures
        reasons(final(failures)@) == reasons(old(failures)@).push(reason@),
{
    failures.push(CellCheckSubFailure { reason });
    assert(reasons(failures@) =~= reasons(old(failures)@).push(reason@));
}

fn non_ascii_check(cell: &[u8], i: usize, failures: &mut Vec<CellCheckSubFailure>)
    requires
        i < cell@.len(),
    ensures
        reasons(final(failures)@) == reasons(old(failures)@) + match non_ascii_reason(cell@, i as int) {
            Some(m) => seq![m],
            None => Seq::empty(),
        },
{
    let rest = slice_subrange(cell, i, cell.len());
    assert(rest@ =~= cell@.subrange(i as int, cell@.len() as int));
    match decode_utf8(rest) {
        Ok(t) => {
            let n = t.as_str().unicode_len();
            let mut j: usize = 0;
            while j < n
                invariant
                    n == t@.len(),
                    j <= n,
                    failures@ == old(failures)@,
                    i < cell@.len(),
                    utf8_decode(cell@.subrange(i as int, cell@.len() as int)) == Ok::<Seq<char>, Seq<char>>(t@),
                    first_white_space_from(t@, 0) == first_white_space_from(t@, j as int),
                decreases n - j,
            {
                let c = t.as_str().get_char(j);
                if char_is_whitespace(c) {
                    let mut m = String::from_str("whitespace (in cell with unicode) at pos ");
                    push_decimal(&mut m, i as u128 + j as u128);
                    push_reason(failures, m);
                    assert(first_white_space_from(t@, j as int) == Some(j as int));
                    assert(reasons(failures@) =~= reasons(old(failures)@) + seq![m@]);
                    return;
                }
                j = j + 1;
            }
            assert(reasons(failures@) =~= reasons(old(failures)@) + Seq::empty());
        },
        Err(e) => {
            let mut m = String::from_str("UTF-8 decoding error: ");
            m.append(e.as_str());
            push_reason(failures, m);
            assert(reasons(failures@) =~= reasons(old(failures)@) + seq![m@]);
        },
    }
}

/// Appends the sub-failure of the whitespace and encoding check, if any.
pub fn cell_checks_whitespace(cell: &[u8], failures: &mut Vec<CellCheckSubFailure>)
    ensures
        reasons(final(failures)@) == reasons(old(failures)@) + match white_space_problem(cell@) {
            Some(m) => seq![m],
            None => Seq::empty(),
        },
{
    let mut i: usize = 0;
    while i < cell.len()
        invariant
            i <= cell@.len(),
            failures@ == old(failures)@,
            white_space_scan(cell@, 0) == white_space_scan(cell@, i as int),
        decreases cell@.len() - i,
    {
        let b = cell[i];
        if is_ascii_white_space(b) {
            let reason = if i == 0 {
                String::from_str("leading whitespace")
            } else if i == cell.len() - 1 {
                String::from_str("trailing whitespace")
            } else {
                String::from_str("whitespace in the middle")
            };
            push_reason(failures, reason);
            assert(reasons(failures@) =~= reasons(old(failures)@) + seq![reason@]);
            return;
        } else if b >= 128 {
            non_ascii_check(cell, i, failures);
            return;
        }
        i = i + 1;
    }
    assert(reasons(failures@) =~= reasons(old(failures)@) + Seq::empty());
}

/// Runs the check policy on one cell: the empty check, else the whitespace
/// check, else the extra checks of `cellsettings`.
pub fn cell_checks<CS: CellSettings>(
    cell: &[u8],
    cellsettings: &CS,
    failures: &mut Vec<CellCheckSubFailure>,
)
    ensures
        reasons(final(failures)@) == reasons(old(failures)@) + cell_reasons(*cellsettings, cell@),
{
    if let Some(f) = cell_check_empty(cell) {
        push_reason(failures, f.reason);
        return;
    }
    let before = failures.len();
    cell_checks_whitespace(cell, failures);
    if failures.len() > before {
        return;
    }
    proof {
        if white_space_problem(cell@) is Some {
            assert(reasons(failures@).len() == reasons(old(failures)@).len() + 1);
        }
    }
    assert(reasons(failures@) =~= reasons(old(failures)@));
    cellsettings.cell_check_more(cell, failures);
}

/// What a failure holds, as plain values.
pub enum FailureModel {
    File(Seq<char>),
    Cell(Seq<Seq<char>>, Seq<u8>, Location),
}

pub open spec fn failure_view(f: Failure) -> FailureModel {
    match f {
        Failure::File(ff) => FailureModel::File(ff.reason@),
        Failure::Cell(c) => FailureModel::Cell(reasons(c.failures@), c.contents@, c.location),
    }
}

pub open spec fn failure_views(v: Seq<Failure>) -> Seq<FailureModel> {
    v.map_values(|f: Failure| failure_view(f))
}

/// The failures of the cells of record `row`, in column order: one for each
/// cell that some check rejects.
pub open spec fn record_failures<S: FileSettings>(s: S, row: u64, cells: Seq<Seq<u8>>) -> Seq<
    FailureModel,
>
    decreases cells.len(),
{
    if cells.len() == 0 {
        Seq::empty()
    } else {
        let loc = Location { row, col: (cells.len() - 1) as usize };
        let rs = location_reasons(s, loc, cells.last());
        record_failures(s, row, cells.drop_last()) + if rs.len() > 0 {
            seq![FailureModel::Cell(rs, cells.last(), loc)]
        } else {
            Seq::empty()
        }
    }
}

/// The cells of a record, as byte sequences.
pub open spec fn record_cells(rec: Seq<Vec<u8>>) -> Seq<Seq<u8>> {
    rec.map_values(|c: Vec<u8>| c@)
}

/// Checks the cell at `loc`: a failure carrying every reason given for it,
/// or none where the cell passes.
pub fn check_cell<S: FileSettings>(settings: &S, loc: Location, cell: &[u8]) -> (r: Option<
    CellCheckFailure,
>)
    ensures
        r is Some <==> location_reasons(*settings, loc, cell@).len() > 0,
        r matches Some(f) ==> reasons(f.failures@) == location_reasons(*settings, loc, cell@)
            && f.contents@ == cell@ && f.location == loc,
{
    let mut failures: Vec<CellCheckSubFailure> = Vec::new();
    assert(reasons(failures@) =~= Seq::empty());
    match settings.column_to_cellsettings(&loc) {
        Some(cs) => {
            cell_checks(cell, cs, &mut failures);
        },
        None => {
            let mut m = String::from_str("unexpected cell at location ");
            let l = loc.to_string();
            m.append(l.as_str());
            push_reason(&mut failures, m);
        },
    }
    assert(reasons(failures@) =~= location_reasons(*settings, loc, cell@));
    if failures.len() > 0 {
        Some(CellCheckFailure { failures, contents: slice_to_vec(cell), location: loc })
    } else {
        None
    }
}

/// What the reader of a tab-separated stream hands over at each step.
pub enum RecordEvent {
    /// The cells of the next record.
    Record(Vec<Vec<u8>>),
    /// The stream ended cleanly.
    End,
    /// The reader failed to frame a record; the text describes why.
    ParseError(String),
}

/// The state of one validation pass over a stream of records.
pub struct CellStream<S: FileSettings> {
    settings: S,
    row: u64,
    finished: bool,
    seen: Ghost<Seq<Seq<Seq<u8>>>>,
}

impl<S: FileSettings> CellStream<S> {
    /// The settings that govern the pass.
    pub closed spec fn pass_settings(&self) -> S {
        self.settings
    }

    /// The index of the next record.
    pub closed spec fn next_row(&self) -> u64 {
        self.row
    }

    /// The cells of the records read so far, in order.
    pub closed spec fn records_seen(&self) -> Seq<Seq<Seq<u8>>> {
        self.seen@
    }

    /// Whether the pass has ended, cleanly or on a parse error.
    pub closed spec fn ended(&self) -> bool {
        self.finished
    }

    /// A pass that has read no record yet.
    pub fn new(settings: S) -> (r: Self)
        ensures
            r.pass_settings() == settings,
            r.next_row() == 0,
            r.records_seen() == Seq::<Seq<Seq<u8>>>::empty(),
            !r.ended(),
    {
        CellStream { settings, row: 0, finished: false, seen: Ghost(Seq::empty()) }
    }

    pub fn settings(&self) -> (r: &S)
        ensures
            *r == self.pass_settings(),
    {
        &self.settings
    }

    pub fn row(&self) -> (r: u64)
        ensures
            r == self.next_row(),
    {
        self.row
    }

    pub fn is_finished(&self) -> (r: bool)
        ensures
            r == self.ended(),
    {
        self.finished
    }

    /// Takes the next event of the reader and returns the failures that it
    /// brings, in the order they are found. A record yields the failures of
    /// its cells; a parse error yields one file failure and ends the pass, as
    /// does the end of the stream. After the end nothing more is produced.
    pub fn step(&mut self, event: RecordEvent) -> (r: Vec<Failure>)
        requires
            !old(self).ended() && event is Record ==> old(self).next_row() < u64::MAX,
            old(self).next_row() == old(self).records_seen().len(),
        ensures
            final(self).pass_settings() == old(self).pass_settings(),
            final(self).next_row() == final(self).records_seen().len(),
            old(self).ended() ==> r@.len() == 0 && *final(self) == *old(self),
            !old(self).ended() ==> match event {
                RecordEvent::Record(rec) => failure_views(r@) == record_failures(
                    old(self).pass_settings(),
                    old(self).next_row(),
                    record_cells(rec@),
                ) && final(self).records_seen() == old(self).records_seen().push(
                    record_cells(rec@),
                ) && final(self).next_row() == old(self).next_row() + 1 && !final(self).ended(),
                RecordEvent::End => r@.len() == 0 && final(self).ended()
                    && final(self).records_seen() == old(self).records_seen(),
                RecordEvent::ParseError(m) => failure_views(r@) == seq![
                    FailureModel::File("CSV parsing error: "@ + m@),
                ] && final(self).ended() && final(self).records_seen() == old(self).records_seen(),
            },
    {
        let mut out: Vec<Failure> = Vec::new();
        if self.finished {
            assert(failure_views(out@) =~= Seq::empty());
            return out;
        }
        match event {
            RecordEvent::Record(rec) => {
                let mut col: usize = 0;
                while col < rec.len()
                    invariant
                        col <= rec@.len(),
                        !self.finished,
                        self.row < u64::MAX,
                        self.row == self.seen@.len(),
                        failure_views(out@) == record_failures(
                            self.settings,
                            self.row,
                            record_cells(rec@.subrange(0, col as int)),
                        ),
                    decreases rec@.len() - col,
                {
                    let loc = Location { row: self.row, col };
                    let found = check_cell(&self.settings, loc, rec[col].as_slice());
                    let ghost before = out@;
                    proof {
                        let cells = record_cells(rec@.subrange(0, col + 1));
                        assert(cells.drop_last() =~= record_cells(rec@.subrange(0, col as int)));
                        assert(cells.last() == rec@[col as int]@);
                    }
                    match found {
                        Some(f) => {
                            out.push(Failure::Cell(f));
                            assert(failure_views(out@) =~= failure_views(before).push(
                                failure_view(Failure::Cell(f)),
                            ));
                        },
                        None => {},
                    }
                    assert(failure_views(out@) =~= record_failures(
                        self.settings,
                        self.row,
                        record_cells(rec@.subrange(0, col + 1)),
                    ));
                    col = col + 1;
                }
                assert(rec@.subrange(0, rec@.len() as int) =~= rec@);
                self.row = self.row + 1;
                self.seen = Ghost(self.seen@.push(record_cells(rec@)));
            },
            RecordEvent::End => {
                self.finished = true;
                assert(failure_views(out@) =~= Seq::empty());
            },
            RecordEvent::ParseError(m) => {
                let mut reason = String::from_str("CSV parsing error: ");
                reason.append(m.as_str());
                let f = Failure::File(FileCheckFailure { reason });
                out.push(f);
                self.finished = true;
                assert(failure_views(out@) =~= seq![failure_view(f)]);
            },
        }
        out
    }
}

/// Starts a validation pass under `settings`. The caller opens the file,
/// frames its records and feeds them to [`CellStream::step`].
pub fn file_checks<S: FileSettings>(settings: S) -> (r: CellStream<S>)
    ensures
        r.pass_settings() == settings,
        r.next_row() == 0,
        r.records_seen() == Seq::<Seq<Seq<u8>>>::empty(),
        !r.ended(),
{
    CellStream::new(settings)
}

/// The failures of a whole pass over `recs`, the first record being `row`.
pub open spec fn stream_failures<S: FileSettings>(s: S, row: u64, recs: Seq<Seq<Seq<u8>>>) -> Seq<
    FailureModel,
>
    decreases recs.len(),
{
    if recs.len() == 0 {
        Seq::empty()
    } else {
        stream_failures(s, row, recs.drop_last()) + record_failures(
            s,
            (row + recs.len() - 1) as u64,
            recs.last(),
        )
    }
}

/// Clean bytes (neither ASCII whitespace nor 128 or more) before `k` leave
/// the outcome of the whitespace scan to the bytes from `k` on.
pub proof fn lemma_clean_prefix(cell: Seq<u8>, k: int)
    requires
        0 <= k <= cell.len(),
        forall|i: int| 0 <= i < k ==> !ascii_white_space(#[trigger] cell[i]) && cell[i] < 128,
    ensures
        white_space_problem(cell) == white_space_scan(cell, k),
    decreases k,
{
    if k > 0 {
        lemma_clean_prefix(cell, k - 1);
    }
}

/// An empty cell gets the one reason "empty cell", whatever the extra checks.
pub proof fn lemma_empty_cell<CS: CellSettings>(cs: CS, cell: Seq<u8>)
    requires
        cell.len() == 0,
    ensures
        cell_reasons(cs, cell) == seq!["empty cell"@],
{
}

/// A cell that starts with ASCII whitespace gets the one reason "leading
/// whitespace"; the extra checks do not run.
pub proof fn lemma_leading_white_space<CS: CellSettings>(cs: CS, cell: Seq<u8>)
    requires
        cell.len() > 0,
        ascii_white_space(cell[0]),
    ensures
        cell_reasons(cs, cell) == seq!["leading whitespace"@],
{
}

/// Where the first ASCII whitespace of a cell of two or more bytes is its
/// last byte, and no byte before it is 128 or more, the one reason is
/// "trailing whitespace".
pub proof fn lemma_trailing_white_space<CS: CellSettings>(cs: CS, cell: Seq<u8>)
    requires
        cell.len() >= 2,
        ascii_white_space(cell[cell.len() - 1]),
        forall|i: int|
            0 <= i < cell.len() - 1 ==> !ascii_white_space(#[trigger] cell[i]) && cell[i] < 128,
    ensures
        cell_reasons(cs, cell) == seq!["trailing whitespace"@],
{
    lemma_clean_prefix(cell, cell.len() - 1);
}

/// Where the first ASCII whitespace lies strictly inside the cell, and no
/// byte before it is 128 or more, the one reason is "whitespace in the
/// middle", however many whitespace bytes follow.
pub proof fn lemma_middle_white_space<CS: CellSettings>(cs: CS, cell: Seq<u8>, k: int)
    requires
        0 < k < cell.len() - 1,
        ascii_white_space(cell[k]),
        forall|i: int| 0 <= i < k ==> !ascii_white_space(#[trigger] cell[i]) && cell[i] < 128,
    ensures
        cell_reasons(cs, cell) == seq!["whitespace in the middle"@],
{
    lemma_clean_prefix(cell, k);
}

/// Where the first byte of 128 or more begins bytes that are no UTF-8, the
/// one reason carries the decoder's message; the extra checks do not run.
pub proof fn lemma_decode_error<CS: CellSettings>(cs: CS, cell: Seq<u8>, k: int, e: Seq<char>)
    requires
        0 <= k < cell.len(),
        cell[k] >= 128,
        forall|i: int| 0 <= i < k ==> !ascii_white_space(#[trigger] cell[i]) && cell[i] < 128,
        utf8_decode(cell.subrange(k, cell.len() as int)) == Err::<Seq<char>, Seq<char>>(e),
    ensures
        cell_reasons(cs, cell) == seq!["UTF-8 decoding error: "@ + e],
{
    lemma_clean_prefix(cell, k);
}

/// A non-empty cell of ASCII bytes without whitespace gets exactly the
/// reasons of the extra checks on the whole cell, in their order.
pub proof fn lemma_clean_cell<CS: CellSettings>(cs: CS, cell: Seq<u8>)
    requires
        cell.len() > 0,
        forall|i: int|
            0 <= i < cell.len() ==> !ascii_white_space(#[trigger] cell[i]) && cell[i] < 128,
    ensures
        cell_reasons(cs, cell) == cs.extra_reasons(cell),
{
    lemma_clean_prefix(cell, cell.len() as int);
}

/// A location that the settings do not expect gets the one reason
/// "unexpected cell at location" with its rendering, whatever the cell holds.
pub proof fn lemma_unexpected_location<S: FileSettings>(s: S, loc: Location, cell: Seq<u8>)
    requires
        s.cell_settings_at(loc) is None,
    ensures
        location_reasons(s, loc, cell) == seq![
            "unexpected cell at location "@ + location_text(loc),
        ],
{
}

/// What one more record adds to a pass: the failures of that record, at the
/// row that follows the records before it. With the contract of
/// [`CellStream::step`] this makes the failures of a pass exactly
/// `stream_failures(settings, 0, records)`.
pub proof fn lemma_pass_extends<S: FileSettings>(
    s: S,
    seen: Seq<Seq<Seq<u8>>>,
    rec: Seq<Seq<u8>>,
)
    requires
        seen.len() < u64::MAX,
    ensures
        stream_failures(s, 0, seen.push(rec)) == stream_failures(s, 0, seen) + record_failures(
            s,
            seen.len() as u64,
            rec,
        ),
{
    assert(seen.push(rec).drop_last() =~= seen);
}

/// Two passes under the same settings over streams of the same records give
/// the same failures.
pub proof fn lemma_passes_agree<S: FileSettings>(
    s: S,
    a: Seq<Seq<Seq<u8>>>,
    b: Seq<Seq<Seq<u8>>>,
)
    requires
        a.len() == b.len(),
        forall|i: int| 0 <= i < a.len() ==> #[trigger] a[i] =~~= b[i],
    ensures
        stream_failures(s, 0, a) == stream_failures(s, 0, b),
{
    assert(a =~~= b);
}

} // verus!
