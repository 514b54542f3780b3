use vstd::prelude::*;
use vstd::string::StrSliceExecFns;
use vstd::string::StringExecFns;

use crate::datetime::{
    TIMESTAMP_LEN,
    digit_position,
    epoch_seconds,
    is_digit,
    is_timestamp_shape,
    is_valid_timestamp,
    separator_at,
    timestamp_seconds,
};
use crate::text::{chars_of, lines, lines_of, opt_view};

verus! {

/// Tag that starts the identifier of every datapoint read from text.
pub const ID_TAG: &'static str = "beeminder ";

/// A datapoint ready for submission. The value is kept in its decimal
/// notation; timestamps are seconds since the Unix epoch.
pub struct Datapoint {
    pub id: String,
    pub timestamp: i64,
    pub daystamp: String,
    pub value: String,
    pub comment: Option<String>,
    pub updated_at: i64,
    pub requestid: Option<String>,
}

/// Why a line of datapoint input was refused; each carries the line.
pub enum DatapointError {
    /// The line holds no `YYYY-MM-DD HH:MM:SS value` record.
    InvalidLine(String),
    /// The record's timestamp names no real date and time.
    InvalidTimestamp(String),
}

impl DatapointError {
    /// The offending line.
    pub fn line(&self) -> (r: &String)
        ensures
            r@ == self.line_spec(),
    {
        match self {
            DatapointError::InvalidLine(l) => l,
            DatapointError::InvalidTimestamp(l) => l,
        }
    }

    pub open spec fn line_spec(&self) -> Seq<char> {
        match self {
            DatapointError::InvalidLine(l) => l@,
            DatapointError::InvalidTimestamp(l) => l@,
        }
    }
}

/// A record starts at `i`: a timestamp of the right shape, a space, and a digit.
pub open spec fn record_starts_at(l: Seq<char>, i: int) -> bool {
    &&& 0 <= i
    &&& i + TIMESTAMP_LEN + 2 <= l.len()
    &&& is_timestamp_shape(l.subrange(i, i + TIMESTAMP_LEN))
    &&& l[i + TIMESTAMP_LEN] == ' '
    &&& is_digit(l[i + TIMESTAMP_LEN + 1])
}

/// The leftmost position at or after `i` where a record starts.
pub open spec fn first_record_from(l: Seq<char>, i: int) -> Option<int>
    decreases l.len() - i,
{
    if i < 0 || i >= l.len() {
        None
    } else if record_starts_at(l, i) {
        Some(i)
    } else {
        first_record_from(l, i + 1)
    }
}

/// The leftmost position of `l` where a record starts.
pub open spec fn record_start(l: Seq<char>) -> Option<int> {
    first_record_from(l, 0)
}

/// End of the run of digits that starts at `k`.
pub open spec fn digits_end(l: Seq<char>, k: int) -> int
    decreases l.len() - k,
{
    if 0 <= k < l.len() && is_digit(l[k]) {
        digits_end(l, k + 1)
    } else {
        k
    }
}

/// End of a value that starts at `a`: digits, then a point and digits if
/// they follow.
pub open spec fn value_end(l: Seq<char>, a: int) -> int {
    let e = digits_end(l, a);
    if e + 1 < l.len() && l[e] == '.' && is_digit(l[e + 1]) {
        digits_end(l, e + 1)
    } else {
        e
    }
}

/// First position at or after `k` that holds a single quote, or the end.
pub open spec fn quote_end(l: Seq<char>, k: int) -> int
    decreases l.len() - k,
{
    if 0 <= k < l.len() && l[k] != '\'' {
        quote_end(l, k + 1)
    } else {
        k
    }
}

/// The comment that follows position `e`: a space, then a non-empty text in
/// single quotes that holds no quote.
pub open spec fn comment_after(l: Seq<char>, e: int) -> Option<Seq<char>> {
    if 0 <= e && e + 1 < l.len() && l[e] == ' ' && l[e + 1] == '\'' {
        let q = quote_end(l, e + 2);
        if e + 2 < q < l.len() {
            Some(l.subrange(e + 2, q))
        } else {
            None
        }
    } else {
        None
    }
}

/// The timestamp text of the record that starts at `i`.
pub open spec fn timestamp_text(l: Seq<char>, i: int) -> Seq<char> {
    l.subrange(i, i + TIMESTAMP_LEN)
}

/// The value text of the record that starts at `i`.
pub open spec fn value_text(l: Seq<char>, i: int) -> Seq<char> {
    let a = i + TIMESTAMP_LEN + 1;
    l.subrange(a, value_end(l, a))
}

/// The comment of the record that starts at `i`.
pub open spec fn comment_text(l: Seq<char>, i: int) -> Option<Seq<char>> {
    comment_after(l, value_end(l, i + TIMESTAMP_LEN + 1))
}

/// The identifier of a datapoint of `goal` at timestamp `t`.
pub open spec fn datapoint_id(goal: Seq<char>, t: Seq<char>) -> Seq<char> {
    ID_TAG@ + goal + seq![' '] + t
}

/// The `YYYYMMDD` day of a `YYYY-MM-DD HH:MM:SS` timestamp.
pub open spec fn daystamp_of(t: Seq<char>) -> Seq<char> {
    t.subrange(0, 4) + t.subrange(5, 7) + t.subrange(8, 10)
}

/// A line is accepted when it holds a record whose timestamp is a real date and time.
pub open spec fn line_accepted(l: Seq<char>) -> bool {
    &&& record_start(l) is Some
    &&& is_valid_timestamp(timestamp_text(l, record_start(l)->0))
}

/// `d` is the datapoint of `goal` that line `l` describes, stamped `updated_at`.
pub open spec fn is_datapoint_of(goal: Seq<char>, l: Seq<char>, updated_at: i64, d: Datapoint) -> bool {
    let i = record_start(l)->0;
    let t = timestamp_text(l, i);
    &&& d.id@ == datapoint_id(goal, t)
    &&& d.timestamp == epoch_seconds(t)
    &&& d.daystamp@ == daystamp_of(t)
    &&& d.value@ == value_text(l, i)
    &&& opt_view(d.comment) == comment_text(l, i)
    &&& d.updated_at == updated_at
    &&& d.requestid is None
}

/// `e` is the error that line `l` is refused with.
pub open spec fn is_error_of(l: Seq<char>, e: DatapointError) -> bool {
    match e {
        DatapointError::InvalidLine(x) => x@ == l && record_start(l) is None,
        DatapointError::InvalidTimestamp(x) => {
            &&& x@ == l
            &&& record_start(l) is Some
            &&& !is_valid_timestamp(timestamp_text(l, record_start(l)->0))
        },
    }
}

proof fn lemma_first_record_starts(l: Seq<char>, j: int)
    requires
        first_record_from(l, j) is Some,
    ensures
        record_starts_at(l, first_record_from(l, j)->0),
    decreases l.len() - j,
{
    if 0 <= j < l.len() && !record_starts_at(l, j) {
        lemma_first_record_starts(l, j + 1);
    }
}

fn is_digit_char(c: char) -> (r: bool)
    ensures
        r == is_digit(c),
{
    '0' <= c && c <= '9'
}

/// Whether the characters of `cs` from `i` on start with a timestamp shape.
fn timestamp_shape_at(cs: &Vec<char>, i: usize) -> (r: bool)
    requires
        i + TIMESTAMP_LEN <= cs.len(),
    ensures
        r == is_timestamp_shape(cs@.subrange(i as int, i + TIMESTAMP_LEN)),
{
    let ghost t = cs@.subrange(i as int, i + TIMESTAMP_LEN);
    let mut k: usize = 0;
    while k < TIMESTAMP_LEN
        invariant
            i + TIMESTAMP_LEN <= cs.len(),
            t == cs@.subrange(i as int, i + TIMESTAMP_LEN),
            k <= TIMESTAMP_LEN,
            forall|j: int|
                0 <= j < k ==> if digit_position(j) {
                    is_digit(#[trigger] t[j])
                } else {
                    t[j] == separator_at(j)
                },
        decreases TIMESTAMP_LEN - k,
    {
        let c = cs[i + k];
        let ok = if k == 4 || k == 7 {
            c == '-'
        } else if k == 10 {
            c == ' '
        } else if k == 13 || k == 16 {
            c == ':'
        } else {
            is_digit_char(c)
        };
        if !ok {
            assert(!(if digit_position(k as int) {
                is_digit(t[k as int])
            } else {
                t[k as int] == separator_at(k as int)
            }));
            return false;
        }
        k = k + 1;
    }
    true
}

/// The leftmost position where a record starts.
fn find_record(cs: &Vec<char>) -> (r: Option<usize>)
    ensures
        r matches Some(i) ==> record_start(cs@) == Some(i as int) && i + TIMESTAMP_LEN + 2
            <= cs.len(),
        r is None ==> record_start(cs@) is None,
{
    let n = cs.len();
    let mut i: usize = 0;
    while i < n
        invariant
            n == cs.len(),
            i <= n,
            first_record_from(cs@, i as int) == record_start(cs@),
        decreases n - i,
    {
        if n - i >= TIMESTAMP_LEN + 2 && timestamp_shape_at(cs, i) && cs[i + TIMESTAMP_LEN] == ' '
            && is_digit_char(cs[i + TIMESTAMP_LEN + 1]) {
            return Some(i);
        }
        i = i + 1;
    }
    None
}

fn scan_digits(cs: &Vec<char>, k: usize) -> (r: usize)
    requires
        k <= cs.len(),
    ensures
        r == digits_end(cs@, k as int),
        k <= r <= cs.len(),
{
    let mut e = k;
    while e < cs.len() && is_digit_char(cs[e])
        invariant
            k <= e <= cs.len(),
            digits_end(cs@, e as int) == digits_end(cs@, k as int),
        decreases cs.len() - e,
    {
        e = e + 1;
    }
    e
}

fn scan_value(cs: &Vec<char>, a: usize) -> (r: usize)
    requires
        a <= cs.len(),
    ensures
        r == value_end(cs@, a as int),
        a <= r <= cs.len(),
{
    let e = scan_digits(cs, a);
    if e < cs.len() && cs.len() - e > 1 && cs[e] == '.' && is_digit_char(cs[e + 1]) {
        scan_digits(cs, e + 1)
    } else {
        e
    }
}

fn scan_quote(cs: &Vec<char>, k: usize) -> (r: usize)
    requires
        k <= cs.len(),
    ensures
        r == quote_end(cs@, k as int),
        k <= r <= cs.len(),
{
    let mut e = k;
    while e < cs.len() && cs[e] != '\''
        invariant
            k <= e <= cs.len(),
            quote_end(cs@, e as int) == quote_end(cs@, k as int),
        decreases cs.len() - e,
    {
        e = e + 1;
    }
    e
}

/// Reads one line of datapoint input: a `YYYY-MM-DD HH:MM:SS` timestamp, a
/// space and a non-negative decimal value, then optionally a space and a
/// single-quoted comment. The record may stand anywhere in the line; the
/// leftmost one counts. The timestamp is read as UTC wall-clock time.
pub fn parse_line(goal: &str, line: &str, updated_at: i64) -> (r: Result<Datapoint, DatapointError>)
    ensures
        r is Ok <==> line_accepted(line@),
        r matches Ok(d) ==> is_datapoint_of(goal@, line@, updated_at, d),
        r matches Err(e) ==> is_error_of(line@, e),
{
    let cs = chars_of(line);
    match find_record(&cs) {
        None => Err(DatapointError::InvalidLine(String::from_str(line))),
        Some(i) => {
            proof {
                lemma_first_record_starts(cs@, 0);
            }
            let t = line.substring_char(i, i + TIMESTAMP_LEN);
            match timestamp_seconds(t) {
                None => Err(DatapointError::InvalidTimestamp(String::from_str(line))),
                Some(seconds) => {
                    let a = i + TIMESTAMP_LEN + 1;
                    let e = scan_value(&cs, a);
                    let value = String::from_str(line.substring_char(a, e));
                    let mut comment: Option<String> = None;
                    if e < cs.len() && cs.len() - e > 1 && cs[e] == ' ' && cs[e + 1] == '\'' {
                        let q = scan_quote(&cs, e + 2);
                        if e + 2 < q && q < cs.len() {
                            comment = Some(String::from_str(line.substring_char(e + 2, q)));
                        }
                    }
                    let id = String::from_str(ID_TAG).concat(goal).concat(" ").concat(t);
                    let daystamp = String::from_str(t.substring_char(0, 4)).concat(
                        t.substring_char(5, 7),
                    ).concat(t.substring_char(8, 10));
                    proof {
                        reveal_strlit(" ");
                        assert(" "@ =~= seq![' ']);
                    }
                    Ok(
                        Datapoint {
                            id,
                            timestamp: seconds,
                            daystamp,
                            value,
                            comment,
                            updated_at,
                            requestid: None,
                        },
                    )
                },
            }
        },
    }
}

/// Every line of `ls` is accepted and `v` holds their datapoints, in order.
pub open spec fn are_datapoints_of(goal: Seq<char>, ls: Seq<Seq<char>>, updated_at: i64, v: Seq<Datapoint>) -> bool {
    &&& v.len() == ls.len()
    &&& forall|k: int| 0 <= k < ls.len() ==> is_datapoint_of(goal, ls[k], updated_at, #[trigger] v[k])
}

/// `e` is the error of the first refused line of `ls`.
pub open spec fn is_first_error_of(ls: Seq<Seq<char>>, e: DatapointError) -> bool {
    exists|k: int|
        0 <= k < ls.len() && (forall|j: int| 0 <= j < k ==> line_accepted(#[trigger] ls[j]))
            && is_error_of(#[trigger] ls[k], e)
}

/// Reads datapoints of `goal` from a text, one per line, all stamped
/// `updated_at`. All or nothing: the first line that is refused makes the
/// whole text fail, with that line's error, and no datapoint is returned.
pub fn datapoints_from_text(goal: &str, input: &str, updated_at: i64) -> (r: Result<
    Vec<Datapoint>,
    DatapointError,
>)
    ensures
        r is Ok <==> forall|k: int|
            0 <= k < lines_of(input@).len() ==> line_accepted(#[trigger] lines_of(input@)[k]),
        r matches Ok(v) ==> are_datapoints_of(goal@, lines_of(input@), updated_at, v@),
        r matches Err(e) ==> is_first_error_of(lines_of(input@), e),
{
    let ls = lines(input);
    let ghost model = lines_of(input@);
    let mut points: Vec<Datapoint> = Vec::new();
    let mut i: usize = 0;
    while i < ls.len()
        invariant
            model == lines_of(input@),
            ls.len() == model.len(),
            forall|k: int| 0 <= k < ls.len() ==> #[trigger] ls[k]@ == model[k],
            i <= ls.len(),
            points.len() == i,
            forall|k: int| 0 <= k < i ==> line_accepted(#[trigger] model[k]),
            forall|k: int|
                0 <= k < i ==> is_datapoint_of(goal@, model[k], updated_at, #[trigger] points[k]),
        decreases ls.len() - i,
    {
        match parse_line(goal, ls[i].as_str(), updated_at) {
            Ok(d) => {
                points.push(d);
            },
            Err(e) => {
                proof {
                    assert(ls[i as int]@ == model[i as int]);
                    assert(!line_accepted(model[i as int]));
                    assert(is_error_of(model[i as int], e));
                }
                return Err(e);
            },
        }
        i = i + 1;
    }
    Ok(points)
}

} // verus!
