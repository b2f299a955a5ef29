//! Per-column settings and the domain checks of strain files.

use vstd::prelude::*;
use vstd::string::*;
use bstr_parse::BStrParse;
use crate::check::{CellSettings, FileSettings};
use crate::checkfailure::{CellCheckSubFailure, reasons};
use crate::location::Location;
use crate::text::{decimal, push_decimal};

verus! {

#[verifier::external_type_specification]
#[verifier::external_body]
pub struct ExBytesRegex(regex::bytes::Regex);

/// The pattern that names in strain files must match.
pub const CELL_CHECK_BXNAME_RE: &'static str = "^(?:\\d+|/\\w+|[A-Za-z_<.>()-]+)+$";

/// Whether `re` matches somewhere in `hay`.
pub uninterp spec fn regex_is_match(re: regex::bytes::Regex, hay: Seq<u8>) -> bool;

/// Relies on regex::bytes::Regex::is_match: the answer depends on the
/// compiled regex and the bytes alone.
#[verifier::external_body]
fn is_match(re: &regex::bytes::Regex, hay: &[u8]) -> (r: bool)
    ensures
        r == regex_is_match(*re, hay@),
{
    re.is_match(hay)
}

/// Relies on regex::bytes::Regex::new: compiles the pattern, or returns the
/// text of the syntax error.
#[verifier::external_body]
fn compile_regex(pattern: &str) -> (r: Result<regex::bytes::Regex, String>) {
    regex::bytes::Regex::new(pattern).map_err(|e| e.to_string())
}

/// The value of a sequence of ASCII digits.
pub open spec fn digits_value(d: Seq<u8>) -> nat
    decreases d.len(),
{
    if d.len() == 0 {
        0
    } else {
        digits_value(d.drop_last()) * 10 + (d.last() - 48) as nat
    }
}

pub open spec fn is_ascii_digit(b: u8) -> bool {
    48 <= b && b <= 57
}

/// The number that bstr_parse reads from `b` as a `u32`: an optional `+`,
/// then one or more ASCII digits whose value fits in 32 bits.
pub open spec fn u32_of_decimal(b: Seq<u8>) -> Option<nat> {
    let d = if b.len() > 0 && b[0] == 43 {
        b.drop_first()
    } else {
        b
    };
    if d.len() > 0 && (forall|i: int| 0 <= i < d.len() ==> is_ascii_digit(#[trigger] d[i]))
        && digits_value(d) <= u32::MAX {
        Some(digits_value(d))
    } else {
        None
    }
}

/// The message of bstr_parse's `ParseIntError` for bytes that are no `u32`.
pub uninterp spec fn u32_parse_error(b: Seq<u8>) -> Seq<char>;

/// Relies on bstr_parse's `parse::<u32>` on bytes: it accepts exactly an
/// optional `+` followed by decimal digits of a value that fits, and its
/// error's message depends on the bytes alone.
#[verifier::external_body]
fn parse_u32(b: &[u8]) -> (r: Result<u32, String>)
    ensures
        match r {
            Ok(n) => u32_of_decimal(b@) == Some(n as nat),
            Err(m) => u32_of_decimal(b@) is None && m@ == u32_parse_error(b@),
        },
{
    b.parse::<u32>().map_err(|e| e.to_string())
}

/// The reasons of the identifier check: a natural number from 1 that fits
/// in 32 bits.
pub open spec fn id_u32_reasons(cell: Seq<u8>) -> Seq<Seq<char>> {
    match u32_of_decimal(cell) {
        Some(n) => if n < 1 {
            seq![
                "cell_check_id_u32: IDs must be natural numbers, starting from 1; got "@
                    + decimal(n),
            ]
        } else {
            Seq::empty()
        },
        None => seq!["cell_check_id_u32: "@ + u32_parse_error(cell)],
    }
}

/// Checks that the cell holds a natural number from 1 that fits in 32 bits.
pub fn cell_check_id_u32(cell: &[u8], failures: &mut Vec<CellCheckSubFailure>)
    ensures
        reasons(final(failures)@) == reasons(old(failures)@) + id_u32_reasons(cell@),
{
    match parse_u32(cell) {
        Ok(n) => {
            if n < 1 {
                let mut m = String::from_str(
                    "cell_check_id_u32: IDs must be natural numbers, starting from 1; got ",
                );
                push_decimal(&mut m, n as u128);
                failures.push(CellCheckSubFailure { reason: m });
                assert(reasons(failures@) =~= reasons(old(failures)@) + id_u32_reasons(cell@));
            } else {
                assert(reasons(failures@) =~= reasons(old(failures)@) + id_u32_reasons(cell@));
            }
        },
        Err(e) => {
            let mut m = String::from_str("cell_check_id_u32: ");
            m.append(e.as_str());
            failures.push(CellCheckSubFailure { reason: m });
            assert(reasons(failures@) =~= reasons(old(failures)@) + id_u32_reasons(cell@));
        },
    }
}

/// The marker of a missing value: a backslash and `N`.
pub open spec fn is_na(cell: Seq<u8>) -> bool {
    cell == seq![92u8, 78u8]
}

/// Whether the cell is the marker of a missing value.
#[allow(non_snake_case)]
pub fn cell_is_NA(cell: &[u8]) -> (r: bool)
    ensures
        r == is_na(cell@),
{
    let r = cell.len() == 2 && cell[0] == 92 && cell[1] == 78;
    proof {
        if r {
            assert(cell@ =~= seq![92u8, 78u8]);
        }
    }
    r
}

/// The reasons of the name check under the compiled name pattern `re`.
pub open spec fn bxname_reasons(re: regex::bytes::Regex, cell: Seq<u8>) -> Seq<Seq<char>> {
    if regex_is_match(re, cell) {
        Seq::empty()
    } else {
        seq!["cell_check_bxname: not matching "@ + CELL_CHECK_BXNAME_RE@]
    }
}

/// Checks the cell against the compiled name pattern.
pub fn cell_check_bxname(
    re: &regex::bytes::Regex,
    cell: &[u8],
    failures: &mut Vec<CellCheckSubFailure>,
)
    ensures
        reasons(final(failures)@) == reasons(old(failures)@) + bxname_reasons(*re, cell@),
{
    if !is_match(re, cell) {
        let mut m = String::from_str("cell_check_bxname: not matching ");
        m.append(CELL_CHECK_BXNAME_RE);
        failures.push(CellCheckSubFailure { reason: m });
    }
    assert(reasons(failures@) =~= reasons(old(failures)@) + bxname_reasons(*re, cell@));
}

/// The name check, where the missing-value marker is accepted too.
pub fn cell_check_optional_bxname(
    re: &regex::bytes::Regex,
    cell: &[u8],
    failures: &mut Vec<CellCheckSubFailure>,
)
    ensures
        reasons(final(failures)@) == reasons(old(failures)@) + if is_na(cell@) {
            Seq::empty()
        } else {
            bxname_reasons(*re, cell@)
        },
{
    if !cell_is_NA(cell) {
        cell_check_bxname(re, cell, failures);
    } else {
        assert(reasons(failures@) =~= reasons(old(failures)@) + Seq::empty());
    }
}

/// Symbols and aliases are accepted as they are.
pub fn cell_check_symbol_or_alias(_cell: &[u8], failures: &mut Vec<CellCheckSubFailure>)
    ensures
        final(failures)@ == old(failures)@,
{
}

/// The domain check of one column.
pub enum CellChecker {
    IdU32,
    BxName(regex::bytes::Regex),
    OptionalBxName(regex::bytes::Regex),
    SymbolOrAlias,
}

impl CellSettings for CellChecker {
    open spec fn extra_reasons(&self, cell: Seq<u8>) -> Seq<Seq<char>> {
        match self {
            CellChecker::IdU32 => id_u32_reasons(cell),
            CellChecker::BxName(re) => bxname_reasons(*re, cell),
            CellChecker::OptionalBxName(re) => if is_na(cell) {
                Seq::empty()
            } else {
                bxname_reasons(*re, cell)
            },
            CellChecker::SymbolOrAlias => Seq::empty(),
        }
    }

    fn cell_check_more(&self, cell: &[u8], failures: &mut Vec<CellCheckSubFailure>) {
        match self {
            CellChecker::IdU32 => cell_check_id_u32(cell, failures),
            CellChecker::BxName(re) => cell_check_bxname(re, cell, failures),
            CellChecker::OptionalBxName(re) => cell_check_optional_bxname(re, cell, failures),
            CellChecker::SymbolOrAlias => {
                cell_check_symbol_or_alias(cell, failures);
                assert(reasons(failures@) =~= reasons(old(failures)@) + Seq::empty());
            },
        }
    }
}

/// Settings that give each column its checker; a column past the last one
/// is unexpected.
pub struct FileSettingsByCol {
    pub checkers: Vec<CellChecker>,
}

impl FileSettings for FileSettingsByCol {
    type CellSettingsT = CellChecker;

    open spec fn cell_settings_at(&self, loc: Location) -> Option<CellChecker> {
        if loc.col < self.checkers@.len() {
            Some(self.checkers@[loc.col as int])
        } else {
            None
        }
    }

    fn column_to_cellsettings(&self, loc: &Location) -> (r: Option<&CellChecker>) {
        if loc.col < self.checkers.len() {
            Some(&self.checkers[loc.col])
        } else {
            None
        }
    }
}

impl FileSettingsByCol {
    pub fn new(checkers: Vec<CellChecker>) -> (r: Self)
        ensures
            r.checkers@ == checkers@,
    {
        FileSettingsByCol { checkers }
    }

    /// The settings of strain files: an identifier, a name, an optional
    /// name, a species identifier, a symbol and an alias, in that order.
    /// Fails only where the name pattern does not compile, with the error.
    pub fn strain_file() -> (r: Result<Self, String>)
        ensures
            r matches Ok(s) ==> s.checkers@.len() == 6 && s.checkers@[0] is IdU32
                && s.checkers@[1] is BxName && s.checkers@[2] is OptionalBxName
                && s.checkers@[3] is IdU32 && s.checkers@[4] is SymbolOrAlias
                && s.checkers@[5] is SymbolOrAlias,
    {
        let name = match compile_regex(CELL_CHECK_BXNAME_RE) {
            Ok(re) => re,
            Err(e) => {
                return Err(e);
            },
        };
        let optional_name = match compile_regex(CELL_CHECK_BXNAME_RE) {
            Ok(re) => re,
            Err(e) => {
                return Err(e);
            },
        };
        let mut checkers: Vec<CellChecker> = Vec::new();
        checkers.push(CellChecker::IdU32);
        checkers.push(CellChecker::BxName(name));
        checkers.push(CellChecker::OptionalBxName(optional_name));
        checkers.push(CellChecker::IdU32);
        checkers.push(CellChecker::SymbolOrAlias);
        checkers.push(CellChecker::SymbolOrAlias);
        Ok(FileSettingsByCol { checkers })
    }
}

} // verus!
