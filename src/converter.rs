use vstd::prelude::*;

use crate::decimal::Decimal;
use crate::error::{message_of, ExchangeRateError};

verus! {

/// Something that can resolve the rate from one currency code to another.
pub trait ExchangeRateProvider {
    /// `r` is an answer this provider may give when asked for `from -> to`.
    /// A provider that states nothing of its answers may give any.
    open spec fn answers(
        &self,
        from: Seq<char>,
        to: Seq<char>,
        r: Result<Decimal, ExchangeRateError>,
    ) -> bool {
        true
    }

    fn get_exchange_rate(&self, from: &str, to: &str) -> (r: Result<Decimal, ExchangeRateError>)
        ensures
            self.answers(from@, to@, r),
    ;
}

/// `r` is what converting `amount` gives once the provider answered `rate`:
/// the exact product on a rate, the provider's message on an error.
pub open spec fn is_conversion_of(
    r: Result<Decimal, String>,
    amount: Decimal,
    rate: Result<Decimal, ExchangeRateError>,
) -> bool {
    match rate {
        Ok(x) => if amount.product_fits(x) {
            r == Ok::<Decimal, String>(amount.times(x))
        } else {
            r matches Err(s) && s@ == "Converted amount is out of range"@
        },
        Err(e) => r matches Err(s) && s@ == "Error getting exchange rate: "@ + message_of(e),
    }
}

/// Turns the provider's answer into the converted amount or an error text.
pub fn convert_with_rate(amount: Decimal, rate: Result<Decimal, ExchangeRateError>) -> (r: Result<
    Decimal,
    String,
>)
    ensures
        is_conversion_of(r, amount, rate),
{
    match rate {
        Ok(x) => match amount.checked_mul(x) {
            Some(p) => Ok(p),
            None => Err("Converted amount is out of range".to_string()),
        },
        Err(e) => {
            let mut s = "Error getting exchange rate: ".to_string();
            let m = e.message();
            s.append(m.as_str());
            Err(s)
        },
    }
}

/// Converts amounts with the rates that a provider resolves.
pub struct CurrencyConverter<T: ExchangeRateProvider> {
    pub rate_provider: T,
}

impl<T: ExchangeRateProvider> CurrencyConverter<T> {
    pub fn new(provider: T) -> (r: Self)
        ensures
            r.rate_provider == provider,
    {
        CurrencyConverter { rate_provider: provider }
    }

    /// Asks the provider once for the rate `from -> to` and applies it to `amount`.
    pub fn convert(&self, amount: Decimal, from: &str, to: &str) -> (r: Result<Decimal, String>)
        ensures
            exists|rate: Result<Decimal, ExchangeRateError>|
                self.rate_provider.answers(from@, to@, rate) && is_conversion_of(r, amount, rate),
    {
        let rate = self.rate_provider.get_exchange_rate(from, to);
        convert_with_rate(amount, rate)
    }
}

/// `sub` occurs somewhere in `s`.
pub open spec fn contains(s: Seq<char>, sub: Seq<char>) -> bool {
    exists|i: int| 0 <= i <= s.len() - sub.len() && #[trigger] s.subrange(i, i + sub.len()) == sub
}

/// A provider that always answers with the same rate makes the conversion
/// the exact product of the amount and that rate, for any pair of codes.
pub proof fn lemma_fixed_rate_conversion<T: ExchangeRateProvider>(
    converter: CurrencyConverter<T>,
    amount: Decimal,
    from: Seq<char>,
    to: Seq<char>,
    rate: Decimal,
    r: Result<Decimal, String>,
)
    requires
        amount.units > 0,
        amount.product_fits(rate),
        forall|f: Seq<char>, t: Seq<char>, a: Result<Decimal, ExchangeRateError>|
            #[trigger] converter.rate_provider.answers(f, t, a) ==> a == Ok::<
                Decimal,
                ExchangeRateError,
            >(rate),
        exists|a: Result<Decimal, ExchangeRateError>|
            converter.rate_provider.answers(from, to, a) && is_conversion_of(r, amount, a),
    ensures
        r matches Ok(p) && p == amount.times(rate),
        r matches Ok(p) && p.units == amount.units * rate.units && p.scale == amount.scale
            + rate.scale,
{
}

/// Converting zero with any rate gives zero.
pub proof fn lemma_zero_amount(amount: Decimal, rate: Decimal, r: Result<Decimal, String>)
    requires
        amount.units == 0,
        amount.scale + rate.scale <= u32::MAX,
        is_conversion_of(r, amount, Ok(rate)),
    ensures
        r matches Ok(p) && p.units == 0,
{
}

/// When the provider cannot find the rate, the error text names both codes.
pub proof fn lemma_not_found_names_codes(
    amount: Decimal,
    from: String,
    to: String,
    r: Result<Decimal, String>,
)
    requires
        is_conversion_of(r, amount, Err(ExchangeRateError::RateNotFound(from, to))),
    ensures
        r matches Err(s) && contains(s@, from@) && contains(s@, to@),
{
    let s = r->Err_0@;
    let a = "Error getting exchange rate: "@ + "Exchange rate from "@;
    let b = " to "@;
    assert(s =~= a + from@ + b + to@ + " not found."@);
    let i = a.len() as int;
    assert(s.subrange(i, i + from@.len()) =~= from@);
    let j = i + from@.len() + b.len();
    assert(s.subrange(j, j + to@.len()) =~= to@);
}

} // verus!
