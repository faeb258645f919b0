//! Byte-level primitives for the wire protocol's JSON subset.
//!
//! Control messages and offer bodies arrive as UTF-8 JSON text. The library
//! parses them itself, over bytes: objects whose values are strings or
//! numbers, with arbitrary whitespace and field order. Strings support the
//! single-character escapes; numbers are decimal with an optional fraction
//! and are represented exactly in fixed-point milli-units (value × 1000,
//! truncated after three fractional digits). Anything outside this subset —
//! `\u` escapes, exponents, nested values — is treated as malformed, and
//! malformed input is always reported, never misread.
//!
//! Each parser exists twice: a `spec` function that *is* the grammar, and an
//! executable function proved to return exactly what the spec function says.

use vstd::prelude::*;

verus! {

/// Largest integer part a number may carry: anything above this could not be
/// scaled to milli-units within `i64`.
pub const MAX_INT_PART: i64 = 9_223_372_036_854_774;

/// JSON whitespace: space, tab, line feed, carriage return.
pub open spec fn is_ws(c: u8) -> bool {
    c == 0x20 || c == 0x09 || c == 0x0a || c == 0x0d
}

/// Decimal digit.
pub open spec fn is_digit(c: u8) -> bool {
    0x30 <= c <= 0x39
}

/// Index of the first non-whitespace byte at or after `i`.
pub open spec fn spec_skip_ws(s: Seq<u8>, i: int) -> int
    decreases s.len() - i,
{
    if 0 <= i < s.len() && is_ws(s[i]) {
        spec_skip_ws(s, i + 1)
    } else {
        i
    }
}

/// What a string escape character stands for; `None` for the unsupported
/// escapes (`\u` among them).
pub open spec fn spec_escape(c: u8) -> Option<u8> {
    if c == 0x22 {
        Some(0x22u8)  // \"
    } else if c == 0x5c {
        Some(0x5cu8)  // backslash
    } else if c == 0x2f {
        Some(0x2fu8)  // /
    } else if c == 0x6e {
        Some(0x0au8)  // \n
    } else if c == 0x74 {
        Some(0x09u8)  // \t
    } else if c == 0x72 {
        Some(0x0du8)  // \r
    } else if c == 0x62 {
        Some(0x08u8)  // \b
    } else if c == 0x66 {
        Some(0x0cu8)  // \f
    } else {
        None
    }
}

/// Decoded content of a string body starting at `i` (just after the opening
/// quote), together with the index just after the closing quote.
pub open spec fn spec_string_body(s: Seq<u8>, i: int) -> Option<(Seq<u8>, int)>
    decreases s.len() - i,
{
    if !(0 <= i < s.len()) {
        None
    } else if s[i] == 0x22 {
        Some((Seq::empty(), i + 1))
    } else if s[i] == 0x5c {
        if i + 1 < s.len() {
            match spec_escape(s[i + 1]) {
                Some(d) => match spec_string_body(s, i + 2) {
                    Some((t, j)) => Some((seq![d] + t, j)),
                    None => None,
                },
                None => None,
            }
        } else {
            None
        }
    } else if s[i] >= 0x20 {
        match spec_string_body(s, i + 1) {
            Some((t, j)) => Some((seq![s[i]] + t, j)),
            None => None,
        }
    } else {
        None
    }
}

/// A complete string at `i`: an opening quote, a body, a closing quote.
pub open spec fn spec_parse_string(s: Seq<u8>, i: int) -> Option<(Seq<u8>, int)> {
    if 0 <= i < s.len() && s[i] == 0x22 {
        spec_string_body(s, i + 1)
    } else {
        None
    }
}

/// A parsed number in fixed-point milli-units, with a flag telling whether
/// it was written without a fractional part.
pub struct SpecNum {
    pub milli: int,
    pub integral: bool,
}

/// Consume digits from `i`, extending the already accumulated integer
/// `acc`; `None` when the value would exceed [`MAX_INT_PART`].
pub open spec fn spec_digits(s: Seq<u8>, i: int, acc: int) -> Option<(int, int)>
    decreases s.len() - i,
{
    if 0 <= i < s.len() && is_digit(s[i]) {
        let acc2 = acc * 10 + (s[i] - 0x30);
        if acc2 > MAX_INT_PART as int {
            None
        } else {
            spec_digits(s, i + 1, acc2)
        }
    } else {
        Some((acc, i))
    }
}

/// Consume fraction digits from `i`; `k` digits were already consumed and
/// `acc` is their value. The first three digits count, in milli-units;
/// later ones are read past and ignored.
pub open spec fn spec_frac(s: Seq<u8>, i: int, k: int, acc: int) -> (int, int)
    decreases s.len() - i,
{
    if 0 <= i < s.len() && is_digit(s[i]) {
        let acc2 = if k < 3 {
            acc * 10 + (s[i] - 0x30)
        } else {
            acc
        };
        spec_frac(s, i + 1, k + 1, acc2)
    } else {
        let padded = if k >= 3 {
            acc
        } else if k == 2 {
            acc * 10
        } else if k == 1 {
            acc * 100
        } else {
            acc * 1000
        };
        (padded, i)
    }
}

/// A number at `i`: optional minus, an integer part without redundant
/// leading zero, an optional fraction. No exponents.
pub open spec fn spec_parse_number(s: Seq<u8>, i: int) -> Option<(SpecNum, int)> {
    if !(0 <= i < s.len()) {
        None
    } else {
        let neg = s[i] == 0x2d;
        let i1 = if neg {
            i + 1
        } else {
            i
        };
        if !(i1 < s.len() && is_digit(s[i1])) {
            None
        } else if s[i1] == 0x30 && i1 + 1 < s.len() && is_digit(s[i1 + 1]) {
            None
        } else {
            match spec_digits(s, i1, 0) {
                None => None,
                Some((ip, i2)) => {
                    if i2 < s.len() && s[i2] == 0x2e {
                        if i2 + 1 < s.len() && is_digit(s[i2 + 1]) {
                            let (frac, i3) = spec_frac(s, i2 + 1, 0, 0);
                            let m = ip * 1000 + frac;
                            Some(
                                (
                                    SpecNum {
                                        milli: if neg {
                                            -m
                                        } else {
                                            m
                                        },
                                        integral: false,
                                    },
                                    i3,
                                ),
                            )
                        } else {
                            None
                        }
                    } else {
                        let m = ip * 1000;
                        Some(
                            (
                                SpecNum {
                                    milli: if neg {
                                        -m
                                    } else {
                                        m
                                    },
                                    integral: true,
                                },
                                i2,
                            ),
                        )
                    }
                },
            }
        }
    }
}

/// A parsed number: milli-units and whether it was written as an integer.
#[derive(Clone, Copy, PartialEq, Eq, Structural, Debug)]
pub struct JsonNum {
    pub milli: i64,
    pub integral: bool,
}

impl View for JsonNum {
    type V = SpecNum;

    /// The spec-level value of this number.
    open spec fn view(&self) -> SpecNum {
        SpecNum { milli: self.milli as int, integral: self.integral }
    }
}

/// First non-whitespace position at or after `i`.
pub fn skip_ws(s: &[u8], i: usize) -> (j: usize)
    requires
        i <= s@.len(),
    ensures
        j as int == spec_skip_ws(s@, i as int),
        i <= j <= s@.len(),
{
    let mut j = i;
    while j < s.len() && (s[j] == 0x20 || s[j] == 0x09 || s[j] == 0x0a || s[j] == 0x0d)
        invariant
            i <= j <= s@.len(),
            spec_skip_ws(s@, i as int) == spec_skip_ws(s@, j as int),
        decreases s@.len() - j,
    {
        j = j + 1;
    }
    j
}

fn escape_byte(c: u8) -> (r: Option<u8>)
    ensures
        r == spec_escape(c),
{
    if c == 0x22 {
        Some(0x22)
    } else if c == 0x5c {
        Some(0x5c)
    } else if c == 0x2f {
        Some(0x2f)
    } else if c == 0x6e {
        Some(0x0a)
    } else if c == 0x74 {
        Some(0x09)
    } else if c == 0x72 {
        Some(0x0d)
    } else if c == 0x62 {
        Some(0x08)
    } else if c == 0x66 {
        Some(0x0c)
    } else {
        None
    }
}

/// Parse the string starting at `i`; returns its decoded bytes and the index
/// just past the closing quote.
pub fn parse_string_at(s: &[u8], i: usize) -> (r: Option<(Vec<u8>, usize)>)
    requires
        i <= s@.len(),
    ensures
        match r {
            Some(p) => {
                &&& spec_parse_string(s@, i as int) == Some((p.0@, p.1 as int))
                &&& i < p.1 <= s@.len()
            },
            None => spec_parse_string(s@, i as int) is None,
        },
{
    if i >= s.len() || s[i] != 0x22 {
        return None;
    }
    let mut acc: Vec<u8> = Vec::new();
    let mut j: usize = i + 1;
    loop
        invariant
            i < s@.len(),
            s@[i as int] == 0x22,
            i + 1 <= j <= s@.len(),
            spec_string_body(s@, (i + 1) as int) == (match spec_string_body(s@, j as int) {
                Some((t, k)) => Some((acc@ + t, k)),
                None => None::<(Seq<u8>, int)>,
            }),
            s@.len() <= usize::MAX,
        decreases s@.len() - j,
    {
        if j >= s.len() {
            return None;
        }
        let c = s[j];
        if c == 0x22 {
            proof {
                assert(spec_string_body(s@, j as int) == Some((Seq::<u8>::empty(), j + 1)));
                assert(acc@ + Seq::<u8>::empty() =~= acc@);
            }
            return Some((acc, j + 1));
        } else if c == 0x5c {
            if j + 1 >= s.len() {
                return None;
            }
            match escape_byte(s[j + 1]) {
                None => {
                    return None;
                },
                Some(d) => {
                    let ghost old_acc = acc@;
                    acc.push(d);
                    proof {
                        let rj = spec_string_body(s@, (j + 2) as int);
                        match rj {
                            Some((t, k)) => {
                                assert(old_acc + (seq![d] + t) =~= acc@ + t);
                            },
                            None => {},
                        }
                    }
                    j = j + 2;
                },
            }
        } else if c >= 0x20 {
            let ghost old_acc = acc@;
            acc.push(c);
            proof {
                let rj = spec_string_body(s@, (j + 1) as int);
                match rj {
                    Some((t, k)) => {
                        assert(old_acc + (seq![c] + t) =~= acc@ + t);
                    },
                    None => {},
                }
            }
            j = j + 1;
        } else {
            return None;
        }
    }
}

/// Parse the number starting at `i`.
pub fn parse_number_at(s: &[u8], i: usize) -> (r: Option<(JsonNum, usize)>)
    requires
        i <= s@.len(),
    ensures
        match r {
            Some(p) => {
                &&& spec_parse_number(s@, i as int) == Some((p.0@, p.1 as int))
                &&& i < p.1 <= s@.len()
            },
            None => spec_parse_number(s@, i as int) is None,
        },
{
    if i >= s.len() {
        return None;
    }
    let neg = s[i] == 0x2d;
    let i1 = if neg {
        i + 1
    } else {
        i
    };
    if i1 >= s.len() || s[i1] < 0x30 || s[i1] > 0x39 {
        return None;
    }
    if s[i1] == 0x30 && i1 + 1 < s.len() && s[i1 + 1] >= 0x30 && s[i1 + 1] <= 0x39 {
        return None;
    }
    // Integer part.
    let mut acc: i64 = 0;
    let mut j: usize = i1;
    while j < s.len() && s[j] >= 0x30 && s[j] <= 0x39
        invariant
            i < s@.len(),
            neg == (s@[i as int] == 0x2d),
            i1 == if neg { i + 1 } else { i as int },
            i1 < s@.len(),
            is_digit(s@[i1 as int]),
            !(s@[i1 as int] == 0x30 && i1 + 1 < s@.len() && is_digit(s@[i1 + 1])),
            i1 <= j <= s@.len(),
            0 <= acc <= MAX_INT_PART,
            spec_digits(s@, i1 as int, 0) == spec_digits(s@, j as int, acc as int),
            s@.len() <= usize::MAX,
        decreases s@.len() - j,
    {
        let d = s[j] - 0x30;
        let acc2: i64 = acc * 10 + (d as i64);
        if acc2 > MAX_INT_PART {
            return None;
        }
        acc = acc2;
        j = j + 1;
    }
    let ip = acc;
    proof {
        assert(spec_digits(s@, j as int, ip as int) == Some((ip as int, j as int)));
    }
    if j < s.len() && s[j] == 0x2e {
        if j + 1 >= s.len() || s[j + 1] < 0x30 || s[j + 1] > 0x39 {
            return None;
        }
        // Fraction: the first three digits count, the rest are read past.
        let mut facc: i64 = 0;
        let mut k: usize = 0;
        let mut fj: usize = j + 1;
        while fj < s.len() && s[fj] >= 0x30 && s[fj] <= 0x39
            invariant
                j + 1 <= fj <= s@.len(),
                k == fj - (j + 1),
                0 <= facc <= 999,
                k < 3 ==> facc < if k == 0 {
                    1int
                } else if k == 1 {
                    10int
                } else {
                    100int
                },
                spec_frac(s@, (j + 1) as int, 0, 0) == spec_frac(
                    s@,
                    fj as int,
                    k as int,
                    facc as int,
                ),
                s@.len() <= usize::MAX,
            decreases s@.len() - fj,
        {
            if k < 3 {
                facc = facc * 10 + ((s[fj] - 0x30) as i64);
            }
            k = k + 1;
            fj = fj + 1;
        }
        let frac: i64 = if k >= 3 {
            facc
        } else if k == 2 {
            facc * 10
        } else if k == 1 {
            facc * 100
        } else {
            facc * 1000
        };
        let m: i64 = ip * 1000 + frac;
        let milli: i64 = if neg {
            -m
        } else {
            m
        };
        Some((JsonNum { milli, integral: false }, fj))
    } else {
        let m: i64 = ip * 1000;
        let milli: i64 = if neg {
            -m
        } else {
            m
        };
        Some((JsonNum { milli, integral: true }, j))
    }
}

} // verus!
