//! The failure model: file-level and cell-level failures, and their
//! rendering.

use vstd::prelude::*;
use vstd::string::*;
use crate::location::{Location, location_text};
use crate::text::{
    bytes_debug, debug_quoted, debug_text, decode_utf8, push_bytes_debug, push_char,
    utf8_decode,
};

verus! {

/// What every failure can say of itself: a short reason, and a fuller
/// message for people.
pub trait CheckFailure {
    spec fn reason_text(&self) -> Seq<char>;

    spec fn message_text(&self) -> Seq<char>;

    fn reason(&self) -> (r: String)
        ensures
            r@ == self.reason_text(),
    ;

    fn plaintext_message(&self) -> (r: String)
        ensures
            r@ == self.message_text(),
    ;
}

/// A problem with the stream as a whole, such as malformed record framing.
#[derive(Clone, Debug)]
pub struct FileCheckFailure {
    pub reason: String,
}

impl CheckFailure for FileCheckFailure {
    open spec fn reason_text(&self) -> Seq<char> {
        self.reason@
    }

    open spec fn message_text(&self) -> Seq<char> {
        self.reason@
    }

    fn reason(&self) -> (r: String) {
        self.reason.clone()
    }

    fn plaintext_message(&self) -> (r: String) {
        self.reason()
    }
}

/// One rule that a cell breaks.
#[derive(Clone, Debug)]
pub struct CellCheckSubFailure {
    pub reason: String,
}

/// The reasons of a sequence of sub-failures.
pub open spec fn reasons(v: Seq<CellCheckSubFailure>) -> Seq<Seq<char>> {
    v.map_values(|f: CellCheckSubFailure| f.reason@)
}

/// Each reason followed by a line feed.
pub open spec fn lines(rs: Seq<Seq<char>>) -> Seq<char>
    decreases rs.len(),
{
    if rs.len() == 0 {
        Seq::empty()
    } else {
        lines(rs.drop_last()) + rs.last() + seq!['\n']
    }
}

/// How the contents of a cell are shown: quoted text where the bytes are
/// UTF-8, else the list of byte values.
pub open spec fn contents_text(b: Seq<u8>) -> Seq<char> {
    match utf8_decode(b) {
        Ok(t) => debug_text(t),
        Err(_) => bytes_debug(b),
    }
}

/// Every rule that one cell breaks, in the order the checks ran, with the
/// cell's bytes and its location.
#[derive(Clone, Debug)]
pub struct CellCheckFailure {
    pub failures: Vec<CellCheckSubFailure>,
    pub contents: Vec<u8>,
    pub location: Location,
}

impl CheckFailure for CellCheckFailure {
    open spec fn reason_text(&self) -> Seq<char> {
        lines(reasons(self.failures@))
    }

    open spec fn message_text(&self) -> Seq<char> {
        lines(reasons(self.failures@)) + "  in cell "@ + location_text(self.location)
            + seq!['\n'] + "  contents: "@ + contents_text(self.contents@)
    }

    fn reason(&self) -> (r: String) {
        let mut s = String::new();
        let mut i: usize = 0;
        while i < self.failures.len()
            invariant
                i <= self.failures@.len(),
                s@ == lines(reasons(self.failures@.subrange(0, i as int))),
            decreases self.failures@.len() - i,
        {
            let ghost before = self.failures@.subrange(0, i as int);
            s.append(self.failures[i].reason.as_str());
            push_char(&mut s, '\n');
            proof {
                let next = self.failures@.subrange(0, i + 1);
                assert(reasons(next).drop_last() =~= reasons(before));
            }
            i = i + 1;
        }
        assert(self.failures@.subrange(0, self.failures@.len() as int) =~= self.failures@);
        s
    }

    fn plaintext_message(&self) -> (r: String) {
        let mut s = self.reason();
        s.append("  in cell ");
        let loc = self.location.to_string();
        s.append(loc.as_str());
        push_char(&mut s, '\n');
        s.append("  contents: ");
        match decode_utf8(self.contents.as_slice()) {
            Ok(t) => {
                let q = debug_quoted(t.as_str());
                s.append(q.as_str());
            },
            Err(_) => {
                push_bytes_debug(&mut s, self.contents.as_slice());
            },
        }
        s
    }
}

/// A failure of either kind.
#[derive(Clone, Debug)]
pub enum Failure {
    File(FileCheckFailure),
    Cell(CellCheckFailure),
}

impl CheckFailure for Failure {
    open spec fn reason_text(&self) -> Seq<char> {
        match self {
            Failure::File(f) => f.reason_text(),
            Failure::Cell(c) => c.reason_text(),
        }
    }

    open spec fn message_text(&self) -> Seq<char> {
        match self {
            Failure::File(f) => f.message_text(),
            Failure::Cell(c) => c.message_text(),
        }
    }

    fn reason(&self) -> (r: String) {
        match self {
            Failure::File(f) => f.reason(),
            Failure::Cell(c) => c.reason(),
        }
    }

    fn plaintext_message(&self) -> (r: String) {
        match self {
            Failure::File(f) => f.plaintext_message(),
            Failure::Cell(c) => c.plaintext_message(),
        }
    }
}

} // verus!
