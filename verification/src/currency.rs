//! An amount of money: a currency identifier, an integral and a fractional part.

use vstd::prelude::*;
use vstd::string::StringExecFns;
use crate::decimal::{decimal, decimal_value, lemma_decimal_roundtrip, push_decimal};

verus! {

/// How an amount is written: identifier, a space, the integral part, the
/// separator and the fractional part, both parts in decimal.
pub open spec fn currency_text(
    identifier: Seq<char>,
    integral: u32,
    separator: Seq<char>,
    fractional: u32,
) -> Seq<char> {
    identifier + seq![' '] + decimal(integral as nat) + separator + decimal(fractional as nat)
}

/// The text of an amount reads back as its parts: it starts with the
/// identifier and a space; the digits after them denote the integral part;
/// the separator follows; and the digits at the end denote the fractional
/// part.
pub proof fn lemma_currency_text_reads_back(
    identifier: Seq<char>,
    integral: u32,
    separator: Seq<char>,
    fractional: u32,
)
    ensures
        ({
            let text = currency_text(identifier, integral, separator, fractional);
            let int_start: int = identifier.len() as int + 1;
            let int_end: int = int_start + decimal(integral as nat).len();
            let frac_start: int = int_end + separator.len();
            &&& text.subrange(0, identifier.len() as int) == identifier
            &&& text[identifier.len() as int] == ' '
            &&& decimal_value(text.subrange(int_start, int_end)) == integral
            &&& text.subrange(int_end, frac_start) == separator
            &&& decimal_value(text.subrange(frac_start, text.len() as int)) == fractional
        }),
{
    lemma_decimal_roundtrip(integral as nat);
    lemma_decimal_roundtrip(fractional as nat);
    let text = currency_text(identifier, integral, separator, fractional);
    let int_start: int = identifier.len() as int + 1;
    let int_end: int = int_start + decimal(integral as nat).len();
    let frac_start: int = int_end + separator.len();
    assert(text.subrange(0, identifier.len() as int) =~= identifier);
    assert(text.subrange(int_start, int_end) =~= decimal(integral as nat));
    assert(text.subrange(int_end, frac_start) =~= separator);
    assert(text.subrange(frac_start, text.len() as int) =~= decimal(fractional as nat));
}

/// An amount of money.
#[derive(Debug, PartialEq, Eq, PartialOrd, Ord)]
pub struct Currency {
    identifier: String,
    fractional: u32,
    integral: u32,
    separator: String,
}

impl Currency {
    /// The currency identifier, such as `SOL`.
    pub closed spec fn identifier_view(&self) -> Seq<char> {
        self.identifier@
    }

    /// The fractional part.
    pub closed spec fn fractional_view(&self) -> u32 {
        self.fractional
    }

    /// The integral part.
    pub closed spec fn integral_view(&self) -> u32 {
        self.integral
    }

    /// What stands between the integral and the fractional part.
    pub closed spec fn separator_view(&self) -> Seq<char> {
        self.separator@
    }

    /// Zero `SOL`, written with `.` as the separator.
    pub fn new() -> (amount: Self)
        ensures
            amount.identifier_view() == "SOL"@,
            amount.fractional_view() == 0,
            amount.integral_view() == 0,
            amount.separator_view() == "."@,
    {
        Currency {
            identifier: "SOL".to_owned(),
            fractional: 0,
            integral: 0,
            separator: ".".to_owned(),
        }
    }

    /// Sets the currency identifier.
    pub fn add_identifier(&mut self, identifier: &str) -> (amount: &mut Self)
        ensures
            *final(self) == *final(amount),
            amount.identifier_view() == identifier@,
            amount.fractional_view() == old(self).fractional_view(),
            amount.integral_view() == old(self).integral_view(),
            amount.separator_view() == old(self).separator_view(),
    {
        self.identifier = identifier.to_owned();
        self
    }

    /// Sets the fractional part.
    pub fn add_fractional(&mut self, fractional: u32) -> (amount: &mut Self)
        ensures
            *final(self) == *final(amount),
            amount.identifier_view() == old(self).identifier_view(),
            amount.fractional_view() == fractional,
            amount.integral_view() == old(self).integral_view(),
            amount.separator_view() == old(self).separator_view(),
    {
        self.fractional = fractional;
        self
    }

    /// Sets the integral part.
    pub fn add_integral(&mut self, integral: u32) -> (amount: &mut Self)
        ensures
            *final(self) == *final(amount),
            amount.identifier_view() == old(self).identifier_view(),
            amount.fractional_view() == old(self).fractional_view(),
            amount.integral_view() == integral,
            amount.separator_view() == old(self).separator_view(),
    {
        self.integral = integral;
        self
    }

    /// Sets the separator.
    pub fn add_separator(&mut self, separator: &str) -> (amount: &mut Self)
        ensures
            *final(self) == *final(amount),
            amount.identifier_view() == old(self).identifier_view(),
            amount.fractional_view() == old(self).fractional_view(),
            amount.integral_view() == old(self).integral_view(),
            amount.separator_view() == separator@,
    {
        self.separator = separator.to_owned();
        self
    }

    /// The currency identifier.
    pub fn identifier(&self) -> (identifier: &str)
        ensures
            identifier@ == self.identifier_view(),
    {
        self.identifier.as_str()
    }

    /// The fractional part.
    pub fn fractional(&self) -> (fractional: u32)
        ensures
            fractional == self.fractional_view(),
    {
        self.fractional
    }

    /// The integral part.
    pub fn integral(&self) -> (integral: u32)
        ensures
            integral == self.integral_view(),
    {
        self.integral
    }

    /// The separator.
    pub fn separator(&self) -> (separator: &str)
        ensures
            separator@ == self.separator_view(),
    {
        self.separator.as_str()
    }

    /// The amount as text, such as `SOL 2.5`.
    pub fn to_string(&self) -> (text: String)
        ensures
            text@ == self.identifier_view() + seq![' '] + decimal(self.integral_view() as nat)
                + self.separator_view() + decimal(self.fractional_view() as nat),
            text@ == currency_text(
                self.identifier_view(),
                self.integral_view(),
                self.separator_view(),
                self.fractional_view(),
            ),
    {
        let mut stringified = String::new();
        stringified.append(self.identifier.as_str());
        proof {
            reveal_strlit(" ");
        }
        stringified.append(" ");
        push_decimal(&mut stringified, self.integral);
        stringified.append(self.separator.as_str());
        push_decimal(&mut stringified, self.fractional);
        assert(stringified@ =~= currency_text(
            self.identifier@,
            self.integral,
            self.separator@,
            self.fractional,
        ));
        stringified
    }
}

impl Default for Currency {
    fn default() -> (amount: Self)
        ensures
            amount.identifier_view() == "SOL"@,
            amount.fractional_view() == 0,
            amount.integral_view() == 0,
            amount.separator_view() == "."@,
    {
        Currency::new()
    }
}

} // verus!
