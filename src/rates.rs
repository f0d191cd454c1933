use vstd::prelude::*;

use crate::decimal::Decimal;
use crate::error::ExchangeRateError;

verus! {

/// The map that a list of `(code, rate)` entries describes.
pub open spec fn entries_map(s: Seq<(Seq<char>, Decimal)>) -> Map<Seq<char>, Decimal>
    decreases s.len(),
{
    if s.len() == 0 {
        Map::empty()
    } else {
        entries_map(s.drop_last()).insert(s.last().0, s.last().1)
    }
}

/// The rate stored for a code in a map of rates, if any.
pub open spec fn rate_in(m: Map<Seq<char>, Decimal>, code: Seq<char>) -> Option<Decimal> {
    if m.dom().contains(code) {
        Some(m[code])
    } else {
        None
    }
}

/// `r` is the error `RateNotFound(from, to)`.
pub open spec fn is_not_found(r: Result<Decimal, ExchangeRateError>, from: Seq<char>, to: Seq<char>) -> bool {
    match r {
        Err(ExchangeRateError::RateNotFound(f, t)) => f@ == from && t@ == to,
        _ => false,
    }
}

/// `r` is the answer a table of rates gives for `from -> to`: the rate of `to`,
/// or `RateNotFound(from, to)` when the table lacks it.
pub open spec fn is_lookup_of(
    r: Result<Decimal, ExchangeRateError>,
    m: Map<Seq<char>, Decimal>,
    from: Seq<char>,
    to: Seq<char>,
) -> bool {
    match rate_in(m, to) {
        Some(rate) => r == Ok::<Decimal, ExchangeRateError>(rate),
        None => is_not_found(r, from, to),
    }
}

proof fn lemma_map_found(s: Seq<(Seq<char>, Decimal)>, i: int)
    requires
        0 <= i < s.len(),
        forall|j: int| i < j < s.len() ==> #[trigger] s[j].0 != s[i].0,
    ensures
        entries_map(s).dom().contains(s[i].0),
        entries_map(s)[s[i].0] == s[i].1,
    decreases s.len(),
{
    if i < s.len() - 1 {
        assert(s[s.len() - 1].0 != s[i].0);
        lemma_map_found(s.drop_last(), i);
    }
}

proof fn lemma_map_missing(s: Seq<(Seq<char>, Decimal)>, code: Seq<char>)
    requires
        forall|i: int| 0 <= i < s.len() ==> #[trigger] s[i].0 != code,
    ensures
        !entries_map(s).dom().contains(code),
    decreases s.len(),
{
    if s.len() > 0 {
        lemma_map_missing(s.drop_last(), code);
    }
}

/// A table of rates from one base currency, keyed by currency code.
pub struct RateTable {
    base: Option<String>,
    entries: Vec<(String, Decimal)>,
}

impl View for RateTable {
    type V = Map<Seq<char>, Decimal>;

    closed spec fn view(&self) -> Map<Seq<char>, Decimal> {
        entries_map(self.entry_seq())
    }
}

impl RateTable {
    pub closed spec fn entry_seq(&self) -> Seq<(Seq<char>, Decimal)> {
        self.entries@.map_values(|e: (String, Decimal)| (e.0@, e.1))
    }

    /// The currency the rates are relative to, where it is recorded.
    pub closed spec fn base_code(&self) -> Option<Seq<char>> {
        match self.base {
            Some(b) => Some(b@),
            None => None,
        }
    }

    /// An empty table with no recorded base currency.
    pub fn new() -> (r: RateTable)
        ensures
            r@ == Map::<Seq<char>, Decimal>::empty(),
            r.base_code() == None::<Seq<char>>,
    {
        let r = RateTable { base: None, entries: Vec::new() };
        assert(r.entry_seq() =~= Seq::empty());
        r
    }

    /// The recorded base currency, if any.
    pub fn base(&self) -> (r: Option<String>)
        ensures
            r matches Some(b) ==> self.base_code() == Some(b@),
            r is None ==> self.base_code() is None,
    {
        match &self.base {
            Some(b) => Some(b.clone()),
            None => None,
        }
    }

    /// Records the base currency the rates are relative to.
    pub fn set_base(&mut self, base: &str)
        ensures
            final(self)@ == old(self)@,
            final(self).base_code() == Some(base@),
    {
        self.base = Some(base.to_string());
    }

    /// Sets the rate of `code`, replacing any rate it had.
    pub fn insert(&mut self, code: String, rate: Decimal)
        ensures
            final(self)@ == old(self)@.insert(code@, rate),
            final(self).base_code() == old(self).base_code(),
    {
        let ghost before = self.entry_seq();
        let ghost key = code@;
        self.entries.push((code, rate));
        assert(self.entry_seq().drop_last() =~= before);
        assert(self.entry_seq().last() == (key, rate));
    }

    /// The rate stored for `code`, if any.
    pub fn get(&self, code: &str) -> (r: Option<Decimal>)
        ensures
            r == rate_in(self@, code@),
    {
        let key = code.to_string();
        let ghost s = self.entry_seq();
        let mut i: usize = self.entries.len();
        while i > 0
            invariant
                s == self.entry_seq(),
                key@ == code@,
                0 <= i <= s.len(),
                forall|j: int| i <= j < s.len() ==> #[trigger] s[j].0 != code@,
            decreases i,
        {
            i = i - 1;
            if self.entries[i].0 == key {
                proof {
                    lemma_map_found(s, i as int);
                }
                return Some(self.entries[i].1);
            }
        }
        proof {
            lemma_map_missing(s, code@);
        }
        None
    }

    /// The rate for `to`, or `RateNotFound(from, to)` when the table lacks it.
    pub fn lookup(&self, from: &str, to: &str) -> (r: Result<Decimal, ExchangeRateError>)
        ensures
            is_lookup_of(r, self@, from@, to@),
    {
        match self.get(to) {
            Some(rate) => Ok(rate),
            None => Err(ExchangeRateError::RateNotFound(from.to_string(), to.to_string())),
        }
    }
}

} // verus!
