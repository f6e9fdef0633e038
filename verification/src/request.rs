//! From the text of the form to typed requests.

use crate::error::ErrMessages;
use vstd::prelude::*;
use vstd::string::*;

verus! {

/// One row of the form, as typed.
#[derive(Debug, Clone, PartialEq, Eq)]
pub struct SplitUnit {
    pub from: String,
    pub to: String,
    pub filename: String,
}

/// What the prover sees of a `SplitUnit`.
pub struct SplitUnitView {
    pub from: Seq<char>,
    pub to: Seq<char>,
    pub filename: Seq<char>,
}

impl View for SplitUnit {
    type V = SplitUnitView;

    open spec fn view(&self) -> SplitUnitView {
        SplitUnitView { from: self.from@, to: self.to@, filename: self.filename@ }
    }
}

/// One request: first page, last page (both counted from one, both
/// included) and the name of the file that receives them.
#[derive(Debug, Clone)]
pub struct Split(pub u32, pub u32, pub String);

/// What the prover sees of a `Split`.
pub struct Request {
    pub start: u32,
    pub end: u32,
    pub name: Seq<char>,
}

impl View for Split {
    type V = Request;

    open spec fn view(&self) -> Request {
        Request { start: self.0, end: self.1, name: self.2@ }
    }
}

impl SplitUnit {
    /// A row with nothing typed into it.
    pub fn empty() -> (unit: SplitUnit)
        ensures
            unit@.from.len() == 0,
            unit@.to.len() == 0,
            unit@.filename.len() == 0,
    {
        SplitUnit { from: String::new(), to: String::new(), filename: String::new() }
    }
}

impl Split {
    /// A request that names no page and no file yet.
    pub fn new() -> (split: Split)
        ensures
            split@.start == 0,
            split@.end == 0,
            split@.name.len() == 0,
    {
        Split(0, 0, String::new())
    }
}

/// Whether `c` is one of the ten decimal digits.
pub open spec fn is_digit(c: char) -> bool {
    '0' <= c && c <= '9'
}

/// The number a decimal digit stands for; 0 for any other character.
pub open spec fn digit_value(c: char) -> nat {
    if is_digit(c) {
        (c as int - '0' as int) as nat
    } else {
        0
    }
}

/// Whether `s` holds decimal digits only.
pub open spec fn all_digits(s: Seq<char>) -> bool {
    forall|i: int| 0 <= i < s.len() ==> is_digit(#[trigger] s[i])
}

/// The number that the digits of `s` write in base ten.
pub open spec fn decimal_value(s: Seq<char>) -> nat
    decreases s.len(),
{
    if s.len() == 0 {
        0
    } else {
        10 * decimal_value(s.drop_last()) + digit_value(s.last())
    }
}

/// `s` without a leading plus sign.
pub open spec fn unsigned_part(s: Seq<char>) -> Seq<char> {
    if s.len() > 0 && s[0] == '+' {
        s.skip(1)
    } else {
        s
    }
}

/// The page number that `s` writes: an optional plus sign, then at least one
/// decimal digit and nothing else, the value within 32 bits.
pub open spec fn spec_parse_number(s: Seq<char>) -> Option<u32> {
    let digits = unsigned_part(s);
    if digits.len() > 0 && all_digits(digits) && decimal_value(digits) <= u32::MAX {
        Some(decimal_value(digits) as u32)
    } else {
        None
    }
}

/// A prefix of a text never writes a larger number than the text.
pub proof fn lemma_decimal_value_prefix(s: Seq<char>, k: int)
    requires
        0 <= k <= s.len(),
    ensures
        decimal_value(s.take(k)) <= decimal_value(s),
    decreases s.len(),
{
    if k == s.len() {
        assert(s.take(k) == s);
    } else {
        lemma_decimal_value_prefix(s.drop_last(), k);
        assert(s.drop_last().take(k) == s.take(k));
    }
}

/// Reads a page number.
pub fn parse_number(text: &str) -> (number: Option<u32>)
    ensures
        number == spec_parse_number(text@),
{
    let total: usize = text.unicode_len();
    let mut seen: usize = 0;
    let mut off: usize = 0;
    let mut value: u32 = 0;
    for c in it: text.chars()
        invariant
            total == text@.len(),
            it.seq() == text@,
            seen == it.index(),
            off <= 1,
            off <= seen,
            off == 1 <==> (seen > 0 && text@[0] == '+'),
            all_digits(text@.subrange(off as int, seen as int)),
            value == decimal_value(text@.subrange(off as int, seen as int)),
    {
        let ghost done = text@.subrange(off as int, seen as int);
        if seen == 0 && c == '+' {
            off = 1;
        } else if '0' <= c && c <= '9' {
            let digit: u32 = c as u32 - '0' as u32;
            let ghost grown = text@.subrange(off as int, seen as int + 1);
            proof {
                assert(grown.drop_last() == done);
                assert(unsigned_part(text@).take(seen as int + 1 - off as int) == grown);
                lemma_decimal_value_prefix(unsigned_part(text@), seen as int + 1 - off as int);
            }
            let tens = match value.checked_mul(10) {
                Some(tens) => tens,
                None => {
                    return None;
                },
            };
            value = match tens.checked_add(digit) {
                Some(sum) => sum,
                None => {
                    return None;
                },
            };
        } else {
            proof {
                assert(unsigned_part(text@)[seen as int - off as int] == c);
            }
            return None;
        }
        seen = seen + 1;
    }
    proof {
        assert(unsigned_part(text@) == text@.subrange(off as int, seen as int));
    }
    if seen == off {
        None
    } else {
        Some(value)
    }
}

/// What one row of the form turns into: the request it writes, or what is
/// wrong with it. The checks come in this order: an empty field, then a bound
/// that is no number, then a bound that is zero. So a row whose last page is
/// no number is `NoNumber` even where its first page is zero.
pub open spec fn convert_unit(unit: SplitUnitView) -> Result<Request, ErrMessages> {
    if unit.to.len() == 0 || unit.from.len() == 0 || unit.filename.len() == 0 {
        Err(ErrMessages::NoInput)
    } else {
        match (spec_parse_number(unit.from), spec_parse_number(unit.to)) {
            (Some(start), Some(end)) => if start == 0 || end == 0 {
                Err(ErrMessages::NoNil)
            } else {
                Ok(Request { start, end, name: unit.filename })
            },
            _ => Err(ErrMessages::NoNumber),
        }
    }
}

/// The rows as the prover sees them.
pub open spec fn unit_views(units: Seq<SplitUnit>) -> Seq<SplitUnitView> {
    units.map_values(|unit: SplitUnit| unit@)
}

/// The requests as the prover sees them.
pub open spec fn request_views(splits: Seq<Split>) -> Seq<Request> {
    splits.map_values(|split: Split| split@)
}

/// What the rows of the form turn into, all or none: the requests they
/// write, in their order, or the error of the first row that writes none.
pub open spec fn convert_rows(units: Seq<SplitUnitView>) -> Result<Seq<Request>, ErrMessages>
    decreases units.len(),
{
    if units.len() == 0 {
        Ok(Seq::empty())
    } else {
        match convert_rows(units.drop_last()) {
            Err(e) => Err(e),
            Ok(requests) => match convert_unit(units.last()) {
                Err(e) => Err(e),
                Ok(request) => Ok(requests.push(request)),
            },
        }
    }
}

/// Whether row `k` is the first of `units` that is not a request.
pub open spec fn first_invalid(units: Seq<SplitUnitView>, k: int) -> bool {
    &&& 0 <= k < units.len()
    &&& convert_unit(units[k]) is Err
    &&& forall|j: int| 0 <= j < k ==> (#[trigger] convert_unit(units[j])) is Ok
}

/// Where every row is a request, the rows turn into those requests, one for
/// one.
pub proof fn lemma_convert_rows_all_valid(units: Seq<SplitUnitView>)
    requires
        forall|i: int| 0 <= i < units.len() ==> (#[trigger] convert_unit(units[i])) is Ok,
    ensures
        convert_rows(units) is Ok,
        convert_rows(units)->Ok_0.len() == units.len(),
        forall|i: int|
            0 <= i < units.len() ==> #[trigger] convert_unit(units[i]) == Ok::<
                Request,
                ErrMessages,
            >(convert_rows(units)->Ok_0[i]),
    decreases units.len(),
{
    if units.len() > 0 {
        let front = units.drop_last();
        lemma_convert_rows_all_valid(front);
        assert forall|i: int| 0 <= i < units.len() implies #[trigger] convert_unit(units[i])
            == Ok::<Request, ErrMessages>(convert_rows(units)->Ok_0[i]) by {
            if i < front.len() {
                assert(front[i] == units[i]);
            }
        }
    }
}

/// Where row `k` is the first that is not a request, the rows turn into its
/// error, whatever comes after it.
pub proof fn lemma_convert_rows_first_invalid(units: Seq<SplitUnitView>, k: int)
    requires
        first_invalid(units, k),
    ensures
        convert_rows(units) == Err::<Seq<Request>, ErrMessages>(convert_unit(units[k])->Err_0),
    decreases units.len(),
{
    let front = units.drop_last();
    if k == units.len() - 1 {
        lemma_convert_rows_all_valid(front);
    } else {
        lemma_convert_rows_first_invalid(front, k);
    }
}

/// Checks one row: reads both numbers, then looks for a zero.
pub fn convert_split(unit: &SplitUnit) -> (converted: Result<Split, ErrMessages>)
    ensures
        match converted {
            Ok(split) => convert_unit(unit@) == Ok::<Request, ErrMessages>(split@),
            Err(e) => convert_unit(unit@) == Err::<Request, ErrMessages>(e),
        },
{
    if unit.to.as_str().is_empty() || unit.from.as_str().is_empty()
        || unit.filename.as_str().is_empty() {
        return Err(ErrMessages::NoInput);
    }
    let start = match parse_number(unit.from.as_str()) {
        Some(number) => number,
        None => {
            return Err(ErrMessages::NoNumber);
        },
    };
    let end = match parse_number(unit.to.as_str()) {
        Some(number) => number,
        None => {
            return Err(ErrMessages::NoNumber);
        },
    };
    if start == 0 || end == 0 {
        return Err(ErrMessages::NoNil);
    }
    Ok(Split(start, end, unit.filename.clone()))
}

/// Turns the rows of the form into requests, all or none: the first row that
/// is not a request ends the work with its error.
pub fn convert_splits(splits: Vec<SplitUnit>) -> (converted: Result<Vec<Split>, ErrMessages>)
    ensures
        match converted {
            Ok(requests) => convert_rows(unit_views(splits@)) == Ok::<Seq<Request>, ErrMessages>(
                request_views(requests@),
            ),
            Err(e) => convert_rows(unit_views(splits@)) == Err::<Seq<Request>, ErrMessages>(e),
        },
{
    let ghost units = unit_views(splits@);
    let mut collected: Vec<Split> = Vec::new();
    let mut i: usize = 0;
    assert(request_views(collected@) == Seq::<Request>::empty());
    while i < splits.len()
        invariant
            i <= splits.len(),
            units == unit_views(splits@),
            convert_rows(units.take(i as int)) == Ok::<Seq<Request>, ErrMessages>(
                request_views(collected@),
            ),
        decreases splits.len() - i,
    {
        assert(units.take(i as int + 1).drop_last() == units.take(i as int));
        match convert_split(&splits[i]) {
            Ok(split) => {
                let ghost before = request_views(collected@);
                collected.push(split);
                assert(request_views(collected@) == before.push(split@));
            },
            Err(e) => {
                proof {
                    assert(first_invalid(units, i as int)) by {
                        lemma_convert_rows_prefix_valid(units, i as int);
                    }
                    lemma_convert_rows_first_invalid(units, i as int);
                }
                return Err(e);
            },
        }
        i = i + 1;
    }
    assert(units.take(i as int) == units);
    Ok(collected)
}

/// Where the first `k` rows turn into requests, each of them is a request.
pub proof fn lemma_convert_rows_prefix_valid(units: Seq<SplitUnitView>, k: int)
    requires
        0 <= k <= units.len(),
        convert_rows(units.take(k)) is Ok,
    ensures
        forall|j: int| 0 <= j < k ==> (#[trigger] convert_unit(units[j])) is Ok,
    decreases k,
{
    if k > 0 {
        assert(units.take(k).drop_last() == units.take(k - 1));
        lemma_convert_rows_prefix_valid(units, k - 1);
    }
}

} // verus!
