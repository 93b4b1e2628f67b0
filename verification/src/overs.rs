//! Over/ball arithmetic: base-6 fractional quantities of overs.

use vstd::prelude::*;

use crate::DuckworthLewisError;

verus! {

/// A length of overs: whole overs plus balls, at six balls to the over.
///
/// A well-formed value keeps `balls` below six; every constructor of this
/// crate establishes that, and parsing input that would imply six or more
/// balls is rejected rather than normalized.
#[derive(Debug, PartialEq, Eq, Structural, Clone, Copy)]
pub struct Overs {
    pub overs: u16,
    pub balls: u16,
}

impl Overs {
    /// Well-formedness: the ball component never reaches a full over.
    pub open spec fn wf(self) -> bool {
        self.balls < 6
    }

    /// Total deliveries this quantity contains.
    pub open spec fn total(self) -> int {
        self.overs * 6 + self.balls
    }

    /// Constructor for a whole number of overs.
    pub fn new(overs: u16) -> (r: Overs)
        ensures
            r == (Overs { overs, balls: 0 }),
            r.wf(),
    {
        Overs { overs, balls: 0 }
    }

    /// The total number of balls that this length of overs contains.
    pub fn total_balls(&self) -> (r: u16)
        requires
            self.total() <= u16::MAX,
        ensures
            r == self.total(),
    {
        self.overs * 6 + self.balls
    }
}

/// The saturating difference of two over quantities, as a value:
/// the delivery counts are subtracted, floored at zero, and re-expressed
/// as overs and balls by divmod six.
pub open spec fn sub_spec(lhs: Overs, rhs: Overs) -> Overs {
    let d = if lhs.total() >= rhs.total() {
        lhs.total() - rhs.total()
    } else {
        0
    };
    Overs { overs: (d / 6) as u16, balls: (d % 6) as u16 }
}

/// Saturating subtraction: `lhs - rhs` floored at zero deliveries, never
/// an underflow, whatever the operands.
pub fn subtract(lhs: &Overs, rhs: &Overs) -> (r: Overs)
    requires
        lhs.total() <= u16::MAX,
        rhs.total() <= u16::MAX,
    ensures
        r == sub_spec(*lhs, *rhs),
        r.wf(),
        r.total() == if lhs.total() >= rhs.total() { lhs.total() - rhs.total() } else { 0 },
{
    let new_balls = lhs.total_balls().saturating_sub(rhs.total_balls());
    Overs { overs: new_balls / 6, balls: new_balls % 6 }
}


/// A decimal digit.
pub open spec fn is_digit(c: char) -> bool {
    48 <= c as u32 <= 57
}

/// The numeric value of a decimal digit.
pub open spec fn digit_val(c: char) -> int {
    c as u32 - 48
}

/// Every character of the text is a decimal digit.
pub open spec fn all_digits(s: Seq<char>) -> bool {
    forall|i: int| 0 <= i < s.len() ==> is_digit(#[trigger] s[i])
}

/// The number a text of decimal digits denotes.
pub open spec fn digits_val(s: Seq<char>) -> int
    decreases s.len(),
{
    if s.len() == 0 {
        0
    } else {
        10 * digits_val(s.drop_last()) + digit_val(s.last())
    }
}

/// A component is numeric when it is non-empty, all digits, and its
/// value fits in sixteen bits.
pub open spec fn is_numeric_u16(s: Seq<char>) -> bool {
    s.len() > 0 && all_digits(s) && digits_val(s) <= u16::MAX
}

/// How many decimal points the text holds.
pub open spec fn dot_count(s: Seq<char>) -> int
    decreases s.len(),
{
    if s.len() == 0 {
        0
    } else {
        dot_count(s.drop_last()) + if s.last() == '.' {
            1int
        } else {
            0int
        }
    }
}

/// The index of the first decimal point, or minus one if there is none.
pub open spec fn first_dot(s: Seq<char>) -> int
    decreases s.len(),
{
    if s.len() == 0 {
        -1
    } else if first_dot(s.drop_last()) >= 0 {
        first_dot(s.drop_last())
    } else if s.last() == '.' {
        s.len() - 1
    } else {
        -1
    }
}

/// What parsing the text `cs` must return.
///
/// A text without a decimal point is a whole number of overs if it is
/// numeric, and malformed otherwise. A text with exactly one decimal
/// point splits there: a non-numeric side is reported as not numeric
/// (the offending side carried along), a ball component of six or more
/// is rejected, and otherwise both sides are taken as overs and balls.
/// More than one decimal point is malformed. Malformed and not-numeric
/// failures carry the offending text.
pub open spec fn parse_post(cs: Seq<char>, r: Result<Overs, DuckworthLewisError>) -> bool {
    if dot_count(cs) == 0 {
        if is_numeric_u16(cs) {
            r matches Ok(o) && o == (Overs { overs: digits_val(cs) as u16, balls: 0 })
        } else {
            r matches Err(DuckworthLewisError::InvalidOverFormat(t)) && t@ == cs
        }
    } else if dot_count(cs) == 1 {
        let whole = cs.take(first_dot(cs));
        let frac = cs.skip(first_dot(cs) + 1);
        if !is_numeric_u16(whole) {
            r matches Err(DuckworthLewisError::OversNotNumeric(t)) && t@ == whole
        } else if !is_numeric_u16(frac) {
            r matches Err(DuckworthLewisError::OversNotNumeric(t)) && t@ == frac
        } else if digits_val(frac) > 5 {
            r matches Err(DuckworthLewisError::TooManyBalls(b)) && b == digits_val(frac)
        } else {
            r matches Ok(o) && o == (Overs {
                overs: digits_val(whole) as u16,
                balls: digits_val(frac) as u16,
            })
        }
    } else {
        r matches Err(DuckworthLewisError::InvalidOverFormat(t)) && t@ == cs
    }
}

/// The value of a digit text never goes down when digits are appended.
proof fn lemma_digits_val_bounds(s: Seq<char>, j: int)
    requires
        all_digits(s),
        0 <= j <= s.len(),
    ensures
        0 <= digits_val(s.take(j)) <= digits_val(s),
    decreases s.len(),
{
    if s.len() == 0 {
        assert(s.take(j) =~= s);
    } else {
        assert(all_digits(s.drop_last()));
        lemma_digits_val_bounds(s.drop_last(), if j <= s.len() - 1 {
            j
        } else {
            s.len() - 1
        });
        assert(is_digit(s.last()));
        if j == s.len() {
            assert(s.take(j) =~= s);
        } else {
            assert(s.take(j) =~= s.drop_last().take(j));
        }
    }
}

/// One scanned component of a text: the characters from `from` to `to`,
/// read as a sixteen-bit number if they are numeric.
fn parse_component(s: &str, from: usize, to: usize) -> (r: Option<u16>)
    requires
        from <= to <= s@.len(),
    ensures
        ({
            let sub = s@.subrange(from as int, to as int);
            match r {
                Some(v) => is_numeric_u16(sub) && v == digits_val(sub),
                None => !is_numeric_u16(sub),
            }
        }),
{
    let ghost sub = s@.subrange(from as int, to as int);
    if from == to {
        return None;
    }
    let mut val: u32 = 0;
    let mut i: usize = from;
    while i < to
        invariant
            from <= i <= to <= s@.len(),
            sub == s@.subrange(from as int, to as int),
            all_digits(sub.take(i - from)),
            val == digits_val(sub.take(i - from)),
            val <= u16::MAX,
        decreases to - i,
    {
        let c = s.get_char(i);
        let d = c as u32;
        proof {
            assert(sub[i - from] == s@[i as int]);
            assert(sub.take(i + 1 - from).drop_last() =~= sub.take(i - from));
            assert(sub.take(i + 1 - from).last() == sub[i - from]);
        }
        if d < 48 || d > 57 {
            proof {
                assert(!is_digit(sub[i - from]));
            }
            return None;
        }
        val = val * 10 + (d - 48);
        proof {
            assert(all_digits(sub.take(i + 1 - from)));
        }
        if val > 65535 {
            proof {
                if all_digits(sub) {
                    lemma_digits_val_bounds(sub, i + 1 - from);
                    assert(digits_val(sub) >= digits_val(sub.take(i + 1 - from)));
                }
            }
            return None;
        }
        i += 1;
    }
    proof {
        assert(sub.take(to - from) =~= sub);
    }
    Some(val as u16)
}

impl Overs {
    /// Parse the textual form `"<overs>"` or `"<overs>.<balls>"`. Any
    /// other shape fails with `InvalidOverFormat`; a side of the point
    /// that is not a non-negative sixteen-bit number fails with
    /// `OversNotNumeric`; a ball component of six or more fails with
    /// `TooManyBalls`. The error carries the offending text or value.
    pub fn parse_text(s: &str) -> (r: Result<Overs, DuckworthLewisError>)
        ensures
            parse_post(s@, r),
            r matches Ok(o) ==> o.wf(),
    {
        let ghost cs = s@;
        let n = s.unicode_len();
        let mut count: usize = 0;
        let mut found = false;
        let mut d1: usize = 0;
        let mut i: usize = 0;
        while i < n
            invariant
                i <= n == cs.len(),
                cs == s@,
                count <= i,
                count == dot_count(cs.take(i as int)),
                count >= 1 ==> found,
                found <==> first_dot(cs.take(i as int)) >= 0,
                found ==> d1 == first_dot(cs.take(i as int)) && d1 < i,
                !found ==> first_dot(cs.take(i as int)) == -1,
            decreases n - i,
        {
            let c = s.get_char(i);
            proof {
                assert(cs.take(i + 1).drop_last() =~= cs.take(i as int));
                assert(cs.take(i + 1).last() == cs[i as int]);
            }
            if c == '.' {
                count += 1;
                if !found {
                    found = true;
                    d1 = i;
                }
            }
            i += 1;
        }
        proof {
            assert(cs.take(n as int) =~= cs);
        }
        if count == 0 {
            match parse_component(s, 0, n) {
                Some(v) => {
                    proof {
                        assert(cs.subrange(0, n as int) =~= cs);
                    }
                    Ok(Overs { overs: v, balls: 0 })
                },
                None => {
                    proof {
                        assert(cs.subrange(0, n as int) =~= cs);
                    }
                    Err(DuckworthLewisError::InvalidOverFormat(s.to_owned()))
                },
            }
        } else if count == 1 {
            proof {
                assert(cs.subrange(0, d1 as int) =~= cs.take(first_dot(cs)));
                assert(cs.subrange(d1 + 1, n as int) =~= cs.skip(first_dot(cs) + 1));
            }
            match parse_component(s, 0, d1) {
                None => {
                    let t = s.substring_char(0, d1).to_owned();
                    Err(DuckworthLewisError::OversNotNumeric(t))
                },
                Some(ov) => match parse_component(s, d1 + 1, n) {
                    None => {
                        let t = s.substring_char(d1 + 1, n).to_owned();
                        Err(DuckworthLewisError::OversNotNumeric(t))
                    },
                    Some(b) => {
                        if b > 5 {
                            Err(DuckworthLewisError::TooManyBalls(b))
                        } else {
                            Ok(Overs { overs: ov, balls: b })
                        }
                    },
                },
            }
        } else {
            Err(DuckworthLewisError::InvalidOverFormat(s.to_owned()))
        }
    }
}


/// A decimal text cut after its first fractional digit: characters past
/// the first one after the decimal point are discarded, not rounded.
/// A text without a decimal point is left whole.
pub open spec fn truncate_decimal(cs: Seq<char>) -> Seq<char> {
    if first_dot(cs) >= 0 && cs.len() > first_dot(cs) + 2 {
        cs.take(first_dot(cs) + 2)
    } else {
        cs
    }
}

/// Once a prefix holds a decimal point, the first one of the whole text
/// is the first one of that prefix.
proof fn lemma_first_dot_stable(s: Seq<char>, j: int)
    requires
        0 <= j <= s.len(),
        first_dot(s.take(j)) >= 0,
    ensures
        first_dot(s) == first_dot(s.take(j)),
    decreases s.len() - j,
{
    if j == s.len() {
        assert(s.take(j) =~= s);
    } else {
        assert(s.take(j + 1).drop_last() =~= s.take(j));
        lemma_first_dot_stable(s, j + 1);
    }
}

/// Truncation does nothing to a decimal text whose fractional part is
/// a single digit: converting such a value by truncation and parsing
/// the text directly are the same thing.
pub proof fn lemma_single_fraction_digit(cs: Seq<char>)
    requires
        first_dot(cs) == cs.len() - 2,
    ensures
        truncate_decimal(cs) == cs,
        forall|r: Result<Overs, DuckworthLewisError>|
            parse_post(truncate_decimal(cs), r) <==> parse_post(cs, r),
{
}

impl Overs {
    /// Parse the decimal form of an over count: the text is cut after
    /// the first fractional digit (a second fractional digit is
    /// discarded, not rounded away) and then read exactly as
    /// `parse_text` reads it, with the same validation. So `"37.37"`
    /// becomes thirty-seven overs and three balls, and `"37.6"` still
    /// fails with `TooManyBalls`.
    pub fn from_decimal_text(s: &str) -> (r: Result<Overs, DuckworthLewisError>)
        ensures
            parse_post(truncate_decimal(s@), r),
            r matches Ok(o) ==> o.wf(),
    {
        let ghost cs = s@;
        let n = s.unicode_len();
        let mut found = false;
        let mut d1: usize = 0;
        let mut i: usize = 0;
        while i < n && !found
            invariant
                i <= n == cs.len(),
                cs == s@,
                found <==> first_dot(cs.take(i as int)) >= 0,
                found ==> d1 == first_dot(cs.take(i as int)) && d1 + 1 == i,
                !found ==> first_dot(cs.take(i as int)) == -1,
            decreases n - i,
        {
            let c = s.get_char(i);
            proof {
                assert(cs.take(i + 1).drop_last() =~= cs.take(i as int));
                assert(cs.take(i + 1).last() == cs[i as int]);
            }
            if c == '.' {
                found = true;
                d1 = i;
            }
            i += 1;
        }
        proof {
            if found {
                lemma_first_dot_stable(cs, i as int);
            } else {
                assert(cs.take(n as int) =~= cs);
            }
        }
        if found && n - d1 > 2 {
            let t = s.substring_char(0, d1 + 2);
            proof {
                assert(t@ =~= truncate_decimal(cs));
            }
            Overs::parse_text(t)
        } else {
            proof {
                assert(truncate_decimal(cs) == cs);
            }
            Overs::parse_text(s)
        }
    }
}

/// The character of a decimal digit.
pub open spec fn dec_digit_char(d: int) -> char {
    if d == 0 {
        '0'
    } else if d == 1 {
        '1'
    } else if d == 2 {
        '2'
    } else if d == 3 {
        '3'
    } else if d == 4 {
        '4'
    } else if d == 5 {
        '5'
    } else if d == 6 {
        '6'
    } else if d == 7 {
        '7'
    } else if d == 8 {
        '8'
    } else {
        '9'
    }
}

/// The canonical decimal text of a non-negative number: no sign, no
/// leading zero except on zero itself.
pub open spec fn dec_digits(n: int) -> Seq<char>
    decreases n,
{
    if n < 10 {
        seq![dec_digit_char(n)]
    } else {
        dec_digits(n / 10).push(dec_digit_char(n % 10))
    }
}

/// The text an over quantity renders to: the whole overs, and the ball
/// count after a decimal point only when there are balls.
pub open spec fn render_spec(o: Overs) -> Seq<char> {
    if o.balls == 0 {
        dec_digits(o.overs as int)
    } else {
        dec_digits(o.overs as int) + seq!['.'] + dec_digits(o.balls as int)
    }
}

/// The one-character text of a decimal digit.
fn digit_str(d: u16) -> (r: &'static str)
    requires
        d <= 9,
    ensures
        r@ == seq![dec_digit_char(d as int)],
{
    proof {
        reveal_strlit("0");
        reveal_strlit("1");
        reveal_strlit("2");
        reveal_strlit("3");
        reveal_strlit("4");
        reveal_strlit("5");
        reveal_strlit("6");
        reveal_strlit("7");
        reveal_strlit("8");
        reveal_strlit("9");
        assert("0"@ =~= seq![dec_digit_char(0)]);
        assert("1"@ =~= seq![dec_digit_char(1)]);
        assert("2"@ =~= seq![dec_digit_char(2)]);
        assert("3"@ =~= seq![dec_digit_char(3)]);
        assert("4"@ =~= seq![dec_digit_char(4)]);
        assert("5"@ =~= seq![dec_digit_char(5)]);
        assert("6"@ =~= seq![dec_digit_char(6)]);
        assert("7"@ =~= seq![dec_digit_char(7)]);
        assert("8"@ =~= seq![dec_digit_char(8)]);
        assert("9"@ =~= seq![dec_digit_char(9)]);
    }
    match d {
        0 => "0",
        1 => "1",
        2 => "2",
        3 => "3",
        4 => "4",
        5 => "5",
        6 => "6",
        7 => "7",
        8 => "8",
        _ => "9",
    }
}

/// The canonical decimal text of a sixteen-bit number.
fn u16_text(v: u16) -> (r: String)
    ensures
        r@ == dec_digits(v as int),
{
    if v < 10 {
        return digit_str(v).to_owned();
    }
    let mut m: u16 = v;
    let mut out: String = String::new();
    proof {
        assert(dec_digits(v as int) =~= dec_digits(m as int) + out@);
    }
    while m >= 10
        invariant
            dec_digits(v as int) == dec_digits(m as int) + out@,
        decreases m,
    {
        let d: u16 = m % 10;
        let mut t: String = digit_str(d).to_owned();
        t.append(out.as_str());
        proof {
            assert(dec_digits(m as int) =~= dec_digits(m as int / 10) + seq![
                dec_digit_char(m as int % 10),
            ]);
            assert(dec_digits(m as int / 10) + (seq![dec_digit_char(m as int % 10)] + out@) =~= (
            dec_digits(m as int / 10) + seq![dec_digit_char(m as int % 10)]) + out@);
            assert(m as int / 10 == (m / 10) as int);
        }
        out = t;
        m = m / 10;
    }
    let mut r: String = digit_str(m).to_owned();
    r.append(out.as_str());
    proof {
        assert(dec_digits(m as int) =~= seq![dec_digit_char(m as int)]);
    }
    r
}

impl Overs {
    /// Render to the textual form `"<overs>"` or `"<overs>.<balls>"`:
    /// whole quantities render without a decimal point.
    pub fn to_text(&self) -> (r: String)
        requires
            self.wf(),
        ensures
            r@ == render_spec(*self),
    {
        let mut out = u16_text(self.overs);
        if self.balls > 0 {
            proof {
                reveal_strlit(".");
                assert("."@ =~= seq!['.']);
            }
            out.append(".");
            out.append(digit_str(self.balls));
        }
        out
    }
}

/// The canonical decimal text of a non-negative number is all digits,
/// has no decimal point, and denotes the number itself.
proof fn lemma_dec_digits_numeric(n: int)
    requires
        0 <= n,
    ensures
        all_digits(dec_digits(n)),
        digits_val(dec_digits(n)) == n,
        dec_digits(n).len() >= 1,
        dot_count(dec_digits(n)) == 0,
        first_dot(dec_digits(n)) == -1,
    decreases n,
{
    if n < 10 {
        let s = dec_digits(n);
        assert(s.drop_last() =~= Seq::<char>::empty());
        assert(digits_val(Seq::<char>::empty()) == 0);
        assert(dot_count(Seq::<char>::empty()) == 0);
        assert(first_dot(Seq::<char>::empty()) == -1);
        assert(is_digit(s.last()));
    } else {
        lemma_dec_digits_numeric(n / 10);
        vstd::arithmetic::div_mod::lemma_fundamental_div_mod(n, 10);
        let p = dec_digits(n / 10);
        let c = dec_digit_char(n % 10);
        assert(p.push(c).drop_last() =~= p);
        assert(p.push(c).last() == c);
        assert(is_digit(c));
        assert(digits_val(p.push(c)) == 10 * digits_val(p) + digit_val(c));
        assert(dot_count(p.push(c)) == dot_count(p));
        assert forall|i: int| 0 <= i < p.push(c).len() implies is_digit(#[trigger] p.push(c)[i]) by {
            if i < p.len() {
                assert(p.push(c)[i] == p[i]);
            }
        }
    }
}

/// Round trip on whole-over text: the canonical text of any whole
/// number of overs parses back to exactly that quantity with zero
/// balls, and that quantity renders back to the same text.
pub proof fn lemma_whole_text_round_trip(n: int)
    requires
        0 <= n <= u16::MAX,
    ensures
        parse_post(dec_digits(n), Ok(Overs { overs: n as u16, balls: 0 })),
        render_spec(Overs { overs: n as u16, balls: 0 }) == dec_digits(n),
        forall|r: Result<Overs, DuckworthLewisError>| #[trigger]
            parse_post(dec_digits(n), r) ==> r == Ok::<Overs, DuckworthLewisError>(
            Overs { overs: n as u16, balls: 0 }),
{
    lemma_dec_digits_numeric(n);
}

impl core::str::FromStr for Overs {
    type Err = DuckworthLewisError;

    /// Parses exactly as `Overs::parse_text` does.
    fn from_str(s: &str) -> Result<Overs, DuckworthLewisError> {
        Overs::parse_text(s)
    }
}


/// Decimal points in joined text are counted side by side.
proof fn lemma_dot_count_concat(a: Seq<char>, b: Seq<char>)
    ensures
        dot_count(a + b) == dot_count(a) + dot_count(b),
    decreases b.len(),
{
    if b.len() == 0 {
        assert(a + b =~= a);
    } else {
        assert((a + b).drop_last() =~= a + b.drop_last());
        assert((a + b).last() == b.last());
        lemma_dot_count_concat(a, b.drop_last());
    }
}

/// The first decimal point of joined text is the first of the left
/// part, or else the first of the right part shifted past the left.
proof fn lemma_first_dot_concat(a: Seq<char>, b: Seq<char>)
    ensures
        first_dot(a + b) == if first_dot(a) >= 0 {
            first_dot(a)
        } else if first_dot(b) >= 0 {
            a.len() + first_dot(b)
        } else {
            -1int
        },
    decreases b.len(),
{
    if b.len() == 0 {
        assert(a + b =~= a);
    } else {
        assert((a + b).drop_last() =~= a + b.drop_last());
        assert((a + b).last() == b.last());
        lemma_first_dot_concat(a, b.drop_last());
    }
}

/// Full round trip: the text any well-formed over quantity renders to
/// parses back to exactly that quantity.
pub proof fn lemma_render_round_trip(o: Overs)
    requires
        o.wf(),
    ensures
        parse_post(render_spec(o), Ok(o)),
{
    lemma_dec_digits_numeric(o.overs as int);
    if o.balls == 0 {
        assert(render_spec(o) == dec_digits(o.overs as int));
    } else {
        lemma_dec_digits_numeric(o.balls as int);
        let a = dec_digits(o.overs as int);
        let d = seq!['.'];
        let b = dec_digits(o.balls as int);
        let cs = a + d + b;
        assert(d.drop_last() =~= Seq::<char>::empty());
        assert(dot_count(Seq::<char>::empty()) == 0);
        assert(first_dot(Seq::<char>::empty()) == -1);
        assert(dot_count(d) == 1);
        assert(first_dot(d) == 0);
        lemma_dot_count_concat(a, d);
        lemma_dot_count_concat(a + d, b);
        assert(dot_count(cs) == 1);
        assert(cs =~= a + (d + b));
        lemma_first_dot_concat(d, b);
        lemma_first_dot_concat(a, d + b);
        assert(first_dot(cs) == a.len());
        assert(cs.take(a.len() as int) =~= a);
        assert(cs.skip(a.len() as int + 1) =~= b);
    }
}

} // verus!



