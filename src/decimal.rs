use vstd::prelude::*;

verus! {

/// A signed decimal number: `units / 10^scale`.
#[derive(Clone, Copy, Debug, PartialEq, Eq, Structural)]
pub struct Decimal {
    pub units: i128,
    pub scale: u32,
}

impl Decimal {
    /// The exact product of two decimals, as the pair of its parts.
    pub open spec fn product_parts(self, other: Decimal) -> (int, int) {
        (self.units * other.units, self.scale + other.scale)
    }

    /// Whether the exact product is representable.
    pub open spec fn product_fits(self, other: Decimal) -> bool {
        let (u, s) = self.product_parts(other);
        i128::MIN <= u <= i128::MAX && s <= u32::MAX
    }

    /// The exact product, when it fits.
    pub open spec fn times(self, other: Decimal) -> Decimal {
        Decimal {
            units: (self.units * other.units) as i128,
            scale: (self.scale + other.scale) as u32,
        }
    }

    /// Exact multiplication; `None` when the result does not fit.
    pub fn checked_mul(self, other: Decimal) -> (r: Option<Decimal>)
        ensures
            r == (if self.product_fits(other) {
                Some(self.times(other))
            } else {
                None
            }),
    {
        let u = self.units.checked_mul(other.units);
        let s = self.scale.checked_add(other.scale);
        match (u, s) {
            (Some(u), Some(s)) => Some(Decimal { units: u, scale: s }),
            _ => None,
        }
    }
}

pub open spec fn is_digit(c: char) -> bool {
    '0' <= c <= '9'
}

pub open spec fn digit_value(c: char) -> int {
    c as int - '0' as int
}

/// Reads decimal text left to right: the magnitude of the digits read, how many
/// of them came after the point, whether a point was seen, and whether every
/// character so far was allowed.
pub open spec fn scan(s: Seq<char>) -> (int, int, bool, bool)
    decreases s.len(),
{
    if s.len() == 0 {
        (0, 0, false, true)
    } else {
        let (m, k, dot, ok) = scan(s.drop_last());
        let c = s.last();
        if is_digit(c) {
            (10 * m + digit_value(c), if dot { k + 1 } else { k }, dot, ok)
        } else if c == '.' && !dot {
            (m, k, true, ok)
        } else {
            (m, k, dot, false)
        }
    }
}

/// Digits, at most one point, digits on both sides of it.
pub open spec fn unsigned_text(s: Seq<char>) -> bool {
    &&& s.len() > 0
    &&& is_digit(s[0])
    &&& is_digit(s.last())
    &&& scan(s).3
}

pub open spec fn is_negative_text(s: Seq<char>) -> bool {
    s.len() > 0 && s[0] == '-'
}

pub open spec fn unsigned_part(s: Seq<char>) -> Seq<char> {
    if is_negative_text(s) { s.drop_first() } else { s }
}

/// Decimal text: an optional minus sign before unsigned decimal digits.
pub open spec fn decimal_text(s: Seq<char>) -> bool {
    unsigned_text(unsigned_part(s))
}

/// The units and scale that well-formed decimal text denotes.
pub open spec fn text_parts(s: Seq<char>) -> (int, int) {
    let m = scan(unsigned_part(s)).0;
    (if is_negative_text(s) { -m } else { m }, scan(unsigned_part(s)).1)
}

/// Decimal text whose units and scale fit a `Decimal`.
pub open spec fn representable_text(s: Seq<char>) -> bool {
    &&& decimal_text(s)
    &&& scan(unsigned_part(s)).0 <= i128::MAX
    &&& scan(unsigned_part(s)).1 <= u32::MAX
}

proof fn lemma_scan_grows(s: Seq<char>, i: int)
    requires
        0 <= i <= s.len(),
    ensures
        0 <= scan(s.take(i)).0 <= scan(s).0,
        0 <= scan(s.take(i)).1 <= scan(s).1 <= s.len(),
    decreases s.len(),
{
    if s.len() > 0 {
        if i == s.len() {
            assert(s.take(i) =~= s);
            lemma_scan_grows(s.drop_last(), 0);
        } else {
            assert(s.take(i) =~= s.drop_last().take(i));
            lemma_scan_grows(s.drop_last(), i);
        }
        let c = s.last();
        if is_digit(c) {
            assert(0 <= digit_value(c) <= 9);
        }
    } else {
        assert(s.take(i) =~= s);
    }
}

impl Decimal {
    /// Reads decimal text such as `0.91`, `100` or `-2.5`.
    pub fn parse(text: &str) -> (r: Option<Decimal>)
        ensures
            r is Some <==> representable_text(text@),
            r matches Some(d) ==> (d.units as int, d.scale as int) == text_parts(text@),
    {
        let n = text.unicode_len();
        let neg = n > 0 && text.get_char(0) == '-';
        let start: usize = if neg { 1 } else { 0 };
        let ghost u = unsigned_part(text@);
        assert(u =~= text@.subrange(start as int, n as int));
        if start >= n {
            return None;
        }
        let mut m: i128 = 0;
        let mut k: u32 = 0;
        let mut dot = false;
        let mut i: usize = start;
        while i < n
            invariant
                start <= i <= n,
                n == text@.len(),
                u =~= text@.subrange(start as int, n as int),
                u == unsigned_part(text@),
                scan(u.take(i - start)) == (m as int, k as int, dot, true),
                m >= 0,
            decreases n - i,
        {
            let c = text.get_char(i);
            proof {
                assert(u.take(i - start + 1).drop_last() =~= u.take(i - start));
                assert(u.take(i - start + 1).last() == c);
            }
            if '0' <= c && c <= '9' {
                let d = (c as u32 - '0' as u32) as i128;
                let grown = match m.checked_mul(10) {
                    Some(t) => t.checked_add(d),
                    None => None,
                };
                match grown {
                    Some(g) => {
                        m = g;
                    },
                    None => {
                        proof {
                            lemma_scan_grows(u, i - start + 1);
                        }
                        return None;
                    },
                }
                if dot {
                    if k == u32::MAX {
                        proof {
                            assert(scan(u.take(i - start + 1)).1 == k + 1);
                            lemma_scan_grows(u, i - start + 1);
                        }
                        return None;
                    }
                    k = k + 1;
                }
            } else if c == '.' && !dot {
                dot = true;
            } else {
                proof {
                    lemma_scan_false(u, i - start + 1);
                }
                return None;
            }
            i = i + 1;
        }
        assert(u.take(i - start) =~= u);
        let first = text.get_char(start);
        let last = text.get_char(n - 1);
        assert(u[0] == first && u.last() == last);
        if !('0' <= first && first <= '9' && '0' <= last && last <= '9') {
            return None;
        }
        let units = if neg { -m } else { m };
        Some(Decimal { units, scale: k })
    }
}

/// Once a character is refused, the scan stays refused.
proof fn lemma_scan_false(s: Seq<char>, i: int)
    requires
        0 <= i <= s.len(),
        !scan(s.take(i)).3,
    ensures
        !scan(s).3,
    decreases s.len(),
{
    if i < s.len() {
        assert(s.take(i) =~= s.drop_last().take(i));
        lemma_scan_false(s.drop_last(), i);
    } else {
        assert(s.take(i) =~= s);
    }
}

} // verus!
