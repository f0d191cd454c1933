use currency_converter::converter::{convert_with_rate, CurrencyConverter, ExchangeRateProvider};
use currency_converter::decimal::Decimal;
use currency_converter::error::ExchangeRateError;
use currency_converter::rates::RateTable;

/// Answers from a fixed table with base USD.
struct TableProvider {
    table: RateTable,
}

impl ExchangeRateProvider for TableProvider {
    fn get_exchange_rate(&self, from: &str, to: &str) -> Result<Decimal, ExchangeRateError> {
        if from != "USD" {
            return Err(ExchangeRateError::RateNotFound(from.to_string(), to.to_string()));
        }
        self.table.lookup(from, to)
    }
}

/// Always answers with the same rate.
struct FixedRate {
    rate: Decimal,
}

impl ExchangeRateProvider for FixedRate {
    fn get_exchange_rate(&self, _from: &str, _to: &str) -> Result<Decimal, ExchangeRateError> {
        Ok(self.rate)
    }
}

fn dec(text: &str) -> Decimal {
    Decimal::parse(text).unwrap()
}

fn usd_table() -> TableProvider {
    let mut table = RateTable::new();
    table.insert("EUR".to_string(), dec("0.91"));
    table.insert("GBP".to_string(), dec("0.78"));
    TableProvider { table }
}

#[test]
fn test_invalid_input() {
    let converter = CurrencyConverter::new(usd_table());
    let converted_amount = converter.convert(dec("100.0"), "INVALID", "EUR");
    assert!(converted_amount.is_err());
}

#[test]
fn test_edge_cases() {
    let converter = CurrencyConverter::new(usd_table());
    let converted_amount = converter.convert(dec("0.0"), "USD", "EUR").unwrap();
    assert_eq!(converted_amount.units, 0);
}

#[test]
fn test_unsupported_currencies() {
    let converter = CurrencyConverter::new(usd_table());
    let converted_amount = converter.convert(dec("100"), "USD", "UNSUPPORTED");
    assert_eq!(
        converted_amount,
        Err("Error getting exchange rate: Exchange rate from USD to UNSUPPORTED not found.".to_string())
    );
}

#[test]
fn fixed_rate_multiplies_exactly() {
    let converter = CurrencyConverter::new(FixedRate { rate: dec("0.91") });
    let r = converter.convert(dec("100"), "USD", "EUR").unwrap();
    assert_eq!(r, Decimal { units: 9100, scale: 2 });
    let r = converter.convert(dec("12.5"), "AAA", "BBB").unwrap();
    assert_eq!(r, Decimal { units: 11375, scale: 3 });
}

#[test]
fn zero_amount_gives_zero() {
    let converter = CurrencyConverter::new(FixedRate { rate: dec("151.234") });
    let r = converter.convert(dec("0"), "USD", "JPY").unwrap();
    assert_eq!(r.units, 0);
}

#[test]
fn not_found_error_names_both_codes() {
    let r = convert_with_rate(
        dec("100"),
        Err(ExchangeRateError::RateNotFound("USD".to_string(), "ZZZ".to_string())),
    );
    let text = r.unwrap_err();
    assert!(text.contains("USD"));
    assert!(text.contains("ZZZ"));
}

#[test]
fn provider_errors_are_rendered() {
    let r = convert_with_rate(dec("1"), Err(ExchangeRateError::IoFailed("no file".to_string())));
    assert_eq!(r, Err("Error getting exchange rate: IO error: no file".to_string()));
    let r = convert_with_rate(dec("1"), Err(ExchangeRateError::RequestFailed("bad body".to_string())));
    assert_eq!(r, Err("Error getting exchange rate: Request error: bad body".to_string()));
    let r = convert_with_rate(
        dec("1"),
        Err(ExchangeRateError::NetworkExhausted("Exceeded maximum retries".to_string())),
    );
    assert_eq!(r, Err("Error getting exchange rate: Network error: Exceeded maximum retries".to_string()));
}

#[test]
fn product_out_of_range_is_an_error() {
    let big = Decimal { units: i128::MAX, scale: 0 };
    let r = convert_with_rate(big, Ok(dec("2")));
    assert_eq!(r, Err("Converted amount is out of range".to_string()));
}
