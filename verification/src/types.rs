//! The normalized money representation the host hands to the adapter:
//! a closed currency enumeration paired with an integer minor-unit value.
//! Integer minor units avoid the rounding drift of floating-point money.

use vstd::prelude::*;
use vstd::string::StringExecFns;

use crate::strutil::str_eq;

verus! {

/// The closed set of currency codes this adapter supports.
#[derive(Debug, Clone, Copy, PartialEq, Eq, Structural)]
pub enum Currency {
    AUD,
    CAD,
    CHF,
    EUR,
    GBP,
    INR,
    JPY,
    SEK,
    SGD,
    USD,
}

impl Currency {
    /// The ISO code of the currency, as the provider's wire schema writes it.
    pub open spec fn code_view(self) -> Seq<char> {
        match self {
            Currency::AUD => "AUD"@,
            Currency::CAD => "CAD"@,
            Currency::CHF => "CHF"@,
            Currency::EUR => "EUR"@,
            Currency::GBP => "GBP"@,
            Currency::INR => "INR"@,
            Currency::JPY => "JPY"@,
            Currency::SEK => "SEK"@,
            Currency::SGD => "SGD"@,
            Currency::USD => "USD"@,
        }
    }

    /// The ISO code of the currency as an owned string.
    pub fn code(&self) -> (r: String)
        ensures
            r@ == self.code_view(),
    {
        match self {
            Currency::AUD => String::from_str("AUD"),
            Currency::CAD => String::from_str("CAD"),
            Currency::CHF => String::from_str("CHF"),
            Currency::EUR => String::from_str("EUR"),
            Currency::GBP => String::from_str("GBP"),
            Currency::INR => String::from_str("INR"),
            Currency::JPY => String::from_str("JPY"),
            Currency::SEK => String::from_str("SEK"),
            Currency::SGD => String::from_str("SGD"),
            Currency::USD => String::from_str("USD"),
        }
    }

    /// Parses an ISO code from the closed set.
    pub fn from_code(s: &str) -> (r: Option<Currency>)
        ensures
            r == currency_of_code(s@),
    {
        if str_eq(s, "AUD") {
            Some(Currency::AUD)
        } else if str_eq(s, "CAD") {
            Some(Currency::CAD)
        } else if str_eq(s, "CHF") {
            Some(Currency::CHF)
        } else if str_eq(s, "EUR") {
            Some(Currency::EUR)
        } else if str_eq(s, "GBP") {
            Some(Currency::GBP)
        } else if str_eq(s, "INR") {
            Some(Currency::INR)
        } else if str_eq(s, "JPY") {
            Some(Currency::JPY)
        } else if str_eq(s, "SEK") {
            Some(Currency::SEK)
        } else if str_eq(s, "SGD") {
            Some(Currency::SGD)
        } else if str_eq(s, "USD") {
            Some(Currency::USD)
        } else {
            None
        }
    }
}

/// Which currency, if any, an ISO code denotes.
pub open spec fn currency_of_code(s: Seq<char>) -> Option<Currency> {
    if s == "AUD"@ {
        Some(Currency::AUD)
    } else if s == "CAD"@ {
        Some(Currency::CAD)
    } else if s == "CHF"@ {
        Some(Currency::CHF)
    } else if s == "EUR"@ {
        Some(Currency::EUR)
    } else if s == "GBP"@ {
        Some(Currency::GBP)
    } else if s == "INR"@ {
        Some(Currency::INR)
    } else if s == "JPY"@ {
        Some(Currency::JPY)
    } else if s == "SEK"@ {
        Some(Currency::SEK)
    } else if s == "SGD"@ {
        Some(Currency::SGD)
    } else if s == "USD"@ {
        Some(Currency::USD)
    } else {
        None
    }
}

/// Law: every supported currency's own code parses back to that currency.
pub proof fn lemma_currency_code_round_trip(c: Currency)
    ensures
        currency_of_code(c.code_view()) == Some(c),
{
    // The codes are pairwise distinct: all have three characters, and the
    // first two characters separate every pair.
    reveal_strlit("AUD");
    reveal_strlit("CAD");
    reveal_strlit("CHF");
    reveal_strlit("EUR");
    reveal_strlit("GBP");
    reveal_strlit("INR");
    reveal_strlit("JPY");
    reveal_strlit("SEK");
    reveal_strlit("SGD");
    reveal_strlit("USD");
    assert("AUD"@.len() == 3);
    assert("CAD"@.len() == 3);
    assert("CHF"@.len() == 3);
    assert("EUR"@.len() == 3);
    assert("GBP"@.len() == 3);
    assert("INR"@.len() == 3);
    assert("JPY"@.len() == 3);
    assert("SEK"@.len() == 3);
    assert("SGD"@.len() == 3);
    assert("USD"@.len() == 3);
    assert("AUD"@[0] == 'A');
    assert("CAD"@[0] == 'C');
    assert("CHF"@[0] == 'C');
    assert("EUR"@[0] == 'E');
    assert("GBP"@[0] == 'G');
    assert("INR"@[0] == 'I');
    assert("JPY"@[0] == 'J');
    assert("SEK"@[0] == 'S');
    assert("SGD"@[0] == 'S');
    assert("USD"@[0] == 'U');
    assert("CAD"@[1] == 'A');
    assert("CHF"@[1] == 'H');
    assert("SEK"@[1] == 'E');
    assert("SGD"@[1] == 'G');
}

/// An amount in the smallest denomination of its currency.
///
/// Invariant: the value is non-negative; both constructors establish it and
/// the type offers no mutation, so every reachable value satisfies
/// [`MinorUnit::wf`].
#[derive(Debug, Clone, Copy, PartialEq, Eq, Structural)]
pub struct MinorUnit {
    value: i64,
}

impl MinorUnit {
    /// Well-formedness: minor-unit amounts are never negative.
    pub open spec fn wf(self) -> bool {
        self.spec_get() >= 0
    }

    /// The raw minor-unit count.
    pub closed spec fn spec_get(self) -> i64 {
        self.value
    }

    /// Wraps a caller-validated, non-negative minor-unit count.
    pub fn new(value: i64) -> (r: MinorUnit)
        requires
            value >= 0,
        ensures
            r.spec_get() == value,
            r.wf(),
    {
        MinorUnit { value }
    }

    /// Wraps a minor-unit count, rejecting negative input.
    pub fn try_new(value: i64) -> (r: Option<MinorUnit>)
        ensures
            value >= 0 <==> (r matches Some(m) && m.spec_get() == value && m.wf()),
            value < 0 <==> r is None,
    {
        if value >= 0 {
            Some(MinorUnit { value })
        } else {
            None
        }
    }

    /// The raw minor-unit count.
    pub fn get(&self) -> (r: i64)
        ensures
            r == self.spec_get(),
    {
        self.value
    }
}

/// A currency code paired with a minor-unit value: the provider's `amount`
/// wire object.
#[derive(Debug, Clone, Copy, PartialEq, Eq, Structural)]
pub struct Amount {
    pub currency: Currency,
    pub value: MinorUnit,
}

impl Amount {
    /// Well-formedness follows the minor-unit invariant.
    pub open spec fn wf(self) -> bool {
        self.value.wf()
    }

    /// Pairs a currency with a minor-unit value.
    pub fn new(currency: Currency, value: MinorUnit) -> (r: Amount)
        ensures
            r.currency == currency,
            r.value == value,
    {
        Amount { currency, value }
    }
}

} // verus!
