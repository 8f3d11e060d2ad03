//! Account balance plus market price feed.
//!
//! Each cycle fetches two values independently: an account's token balance
//! (a JSON document whose `data.balance` field counts the smallest
//! indivisible unit, one hundred-millionth of a token) and the token's
//! average market price. The last successfully fetched value of each source
//! is cached and survives any number of later failures of that source. One
//! line is printed every cycle, in one of four shapes, depending on which of
//! the two values is known; when both are, it also shows their product, the
//! account's worth in the reference currency.
//!
//! Amounts are kept as exact integers: a balance as its count of smallest
//! units, a price as hundred-millionths of the reference currency. Display
//! rounds to cents (two decimal places, halves away from zero).

use vstd::prelude::*;

use crate::digits::cents_to_string;
use crate::digits::spec_cents;

verus! {

/// Why a fetch produced no value: the source did not answer (or answered
/// with an error), the response was not well-formed, or it was well-formed
/// but the expected field was missing or not an unsigned integer.
#[derive(Clone, Copy, Debug, PartialEq, Eq, Structural)]
pub enum FetchError {
    SourceUnavailable,
    ParseError,
    SchemaError,
}

/// Whether `serde_json` accepts the text as a JSON document.
pub uninterp spec fn spec_json_wellformed(s: Seq<char>) -> bool;

/// The `data.balance` field of the JSON document in the text, when the text
/// is a well-formed document carrying that field as an unsigned integer.
pub uninterp spec fn spec_balance_field(s: Seq<char>) -> Option<u64>;

/// Relies on `serde_json::from_str`, which parses a JSON document from text,
/// on `serde_json::Value`'s `[&str]` indexing, which returns the named field
/// of an object and `Null` for anything else, and on
/// `serde_json::Number::as_u64`. All three depend on the text alone.
#[verifier::external_body]
fn json_balance_field(payload: &str) -> (r: Result<Option<u64>, serde_json::Error>)
    ensures
        r is Ok <==> spec_json_wellformed(payload@),
        r matches Ok(f) ==> f == spec_balance_field(payload@),
{
    match serde_json::from_str::<serde_json::Value>(payload) {
        Err(e) => Err(e),
        Ok(doc) => match &doc["data"]["balance"] {
            serde_json::Value::Number(n) => Ok(n.as_u64()),
            _ => Ok(None),
        },
    }
}

#[verifier::external_type_specification]
#[verifier::external_body]
pub struct ExSerdeJsonError(serde_json::Error);

/// What `parse_balance` returns for a given response text.
pub open spec fn spec_parse_balance(s: Seq<char>) -> Result<u64, FetchError> {
    if !spec_json_wellformed(s) {
        Err(FetchError::ParseError)
    } else {
        match spec_balance_field(s) {
            Some(b) => Ok(b),
            None => Err(FetchError::SchemaError),
        }
    }
}

/// The balance, in smallest indivisible units, carried by a balance-query
/// response: `Err(ParseError)` exactly when the text is not a well-formed
/// JSON document, `Err(SchemaError)` exactly when it is but its
/// `data.balance` field is missing or not an unsigned integer.
pub fn parse_balance(payload: &str) -> (r: Result<u64, FetchError>)
    ensures
        r == spec_parse_balance(payload@),
{
    match json_balance_field(payload) {
        Err(_) => Err(FetchError::ParseError),
        Ok(None) => Err(FetchError::SchemaError),
        Ok(Some(bones)) => Ok(bones),
    }
}

/// The balance-query endpoint for an account identifier.
pub fn balance_url(account: &str) -> (r: String)
    ensures
        r@ == "https://api.helium.io/v1/accounts/"@ + account@,
{
    String::from_str("https://api.helium.io/v1/accounts/").concat(account)
}

/// Cents (hundredths) of a value held in hundred-millionths: division by a
/// million, rounded half away from zero.
pub open spec fn spec_cents_of_e8(v: nat) -> nat {
    (v + 500_000) / 1_000_000
}

/// Rounds a value held in hundred-millionths of a unit to cents.
pub fn cents_of_e8(v: u64) -> (c: u64)
    ensures
        c == spec_cents_of_e8(v as nat),
{
    proof {
        assert((v as int + 500_000) / 1_000_000 <= v as int) by (nonlinear_arith);
    }
    let wide: u128 = (v as u128 + 500_000) / 1_000_000;
    wide as u64
}

/// Cents of the product of a balance in smallest (hundred-millionth) units
/// and a price in hundred-millionths: the exact product sits at a scale of
/// one e16th, so cents are its division by one e14th, rounded half away
/// from zero.
pub open spec fn spec_combined_cents(bones: nat, price_e8: nat) -> nat {
    (bones * price_e8 + 50_000_000_000_000) / 100_000_000_000_000
}

/// The combined worth, in cents, of `bones` smallest balance units at
/// `price_e8` hundred-millionths per token.
pub fn combined_cents(bones: u64, price_e8: u64) -> (c: u128)
    ensures
        c == spec_combined_cents(bones as nat, price_e8 as nat),
{
    proof {
        assert(bones as int * price_e8 as int <= 0xffff_ffff_ffff_ffff * 0xffff_ffff_ffff_ffff)
            by (nonlinear_arith)
            requires
                bones <= 0xffff_ffff_ffff_ffff,
                price_e8 <= 0xffff_ffff_ffff_ffff,
        ;
    }
    let prod: u128 = bones as u128 * price_e8 as u128;
    (prod + 50_000_000_000_000) / 100_000_000_000_000
}

/// The one line printed per cycle: exactly one of four shapes, chosen by
/// which of the two last-known values is present. The placeholder glyphs
/// differ between the shapes (`__.__` when nothing is known, `__:__`
/// elsewhere); downstream consumers parse fixed-width fields, so the
/// inconsistency is kept verbatim.
pub open spec fn spec_balance_line(bones: Option<u64>, price_e8: Option<u64>) -> Seq<char> {
    match (bones, price_e8) {
        (None, None) => "H __.__ $__.__ $__.__"@,
        (Some(b), None) => "H "@ + spec_cents(spec_cents_of_e8(b as nat)) + " $__:__ $__:__"@,
        (None, Some(p)) => "H __:__ $"@ + spec_cents(spec_cents_of_e8(p as nat)) + " $__:__"@,
        (Some(b), Some(p)) => "H "@ + spec_cents(spec_cents_of_e8(b as nat)) + " $"@ + spec_cents(
            spec_cents_of_e8(p as nat),
        ) + " $"@ + spec_cents(spec_combined_cents(b as nat, p as nat)),
    }
}

/// Renders the status line for the current pair of last-known values.
pub fn balance_line(bones: Option<u64>, price_e8: Option<u64>) -> (r: String)
    ensures
        r@ == spec_balance_line(bones, price_e8),
{
    match (bones, price_e8) {
        (None, None) => String::from_str("H __.__ $__.__ $__.__"),
        (Some(b), None) => {
            let cents = cents_to_string(cents_of_e8(b) as u128);
            let r = String::from_str("H ").concat(cents.as_str()).concat(" $__:__ $__:__");
            proof {
                assert(r@ =~= spec_balance_line(bones, price_e8));
            }
            r
        },
        (None, Some(p)) => {
            let cents = cents_to_string(cents_of_e8(p) as u128);
            let r = String::from_str("H __:__ $").concat(cents.as_str()).concat(" $__:__");
            proof {
                assert(r@ =~= spec_balance_line(bones, price_e8));
            }
            r
        },
        (Some(b), Some(p)) => {
            let b_cents = cents_to_string(cents_of_e8(b) as u128);
            let p_cents = cents_to_string(cents_of_e8(p) as u128);
            let both_cents = cents_to_string(combined_cents(b, p));
            let r = String::from_str("H ").concat(b_cents.as_str()).concat(" $").concat(
                p_cents.as_str(),
            ).concat(" $").concat(both_cents.as_str());
            proof {
                assert(r@ =~= spec_balance_line(bones, price_e8));
            }
            r
        },
    }
}

/// The last successfully fetched value of each source: absent at start,
/// overwritten on a successful fetch, held unchanged on a failed one,
/// never cleared.
pub struct LastKnown {
    pub balance_bones: Option<u64>,
    pub price_e8: Option<u64>,
}

/// What one fetch outcome leaves in a last-known-value cell: a success
/// overwrites it, a failure leaves it as it was.
pub open spec fn spec_update(cell: Option<u64>, fetch: Result<u64, FetchError>) -> Option<u64> {
    match fetch {
        Ok(v) => Some(v),
        Err(_) => cell,
    }
}

/// The pair of last-known values after one cycle's two fetch outcomes:
/// each cell is updated from its own source's outcome alone.
pub open spec fn spec_cycle_cells(
    bones: Option<u64>,
    price_e8: Option<u64>,
    balance_fetch: Result<u64, FetchError>,
    price_fetch: Result<u64, FetchError>,
) -> (Option<u64>, Option<u64>) {
    (spec_update(bones, balance_fetch), spec_update(price_e8, price_fetch))
}

impl LastKnown {
    /// At process start neither value is known.
    pub fn new() -> (r: Self)
        ensures
            r.balance_bones is None,
            r.price_e8 is None,
    {
        LastKnown { balance_bones: None, price_e8: None }
    }

    /// One poll cycle, from the two fetch outcomes to the line to print:
    /// applies each outcome to its own cell and renders the line from the
    /// resulting pair. Exactly one line comes out whatever the outcomes.
    pub fn cycle(
        &mut self,
        balance_fetch: Result<u64, FetchError>,
        price_fetch: Result<u64, FetchError>,
    ) -> (line: String)
        ensures
            (final(self).balance_bones, final(self).price_e8) == spec_cycle_cells(
                old(self).balance_bones,
                old(self).price_e8,
                balance_fetch,
                price_fetch,
            ),
            line@ == spec_balance_line(final(self).balance_bones, final(self).price_e8),
    {
        match balance_fetch {
            Ok(v) => {
                self.balance_bones = Some(v);
            },
            Err(_) => {},
        }
        match price_fetch {
            Ok(v) => {
                self.price_e8 = Some(v);
            },
            Err(_) => {},
        }
        balance_line(self.balance_bones, self.price_e8)
    }
}

/// Source independence: what a cycle leaves in one source's cell depends
/// only on that cell and that source's own fetch outcome — the other
/// source may succeed or fail in any way without affecting it.
pub proof fn lemma_source_independence(
    bones: Option<u64>,
    price_e8: Option<u64>,
    balance_fetch: Result<u64, FetchError>,
    price_fetch_a: Result<u64, FetchError>,
    price_fetch_b: Result<u64, FetchError>,
)
    ensures
        spec_cycle_cells(bones, price_e8, balance_fetch, price_fetch_a).0 == spec_cycle_cells(
            bones,
            price_e8,
            balance_fetch,
            price_fetch_b,
        ).0,
        spec_cycle_cells(bones, price_e8, price_fetch_a, balance_fetch).1 == spec_cycle_cells(
            bones,
            price_e8,
            price_fetch_b,
            balance_fetch,
        ).1,
{
}

/// A cell's value after a whole run of fetch outcomes, applied in order.
pub open spec fn spec_run(cell: Option<u64>, fetches: Seq<Result<u64, FetchError>>) -> Option<u64>
    decreases fetches.len(),
{
    if fetches.len() == 0 {
        cell
    } else {
        spec_run(spec_update(cell, fetches[0]), fetches.drop_first())
    }
}

/// Retention: once a value is known, it stays the displayed value unchanged
/// across any number of subsequent failed fetches of that source.
pub proof fn lemma_value_retained(v: u64, fetches: Seq<Result<u64, FetchError>>)
    requires
        forall|i: int| 0 <= i < fetches.len() ==> fetches[i] is Err,
    ensures
        spec_run(Some(v), fetches) == Some(v),
    decreases fetches.len(),
{
    if fetches.len() > 0 {
        assert(fetches[0] is Err);
        assert(spec_update(Some(v), fetches[0]) == Some(v));
        assert(forall|i: int|
            0 <= i < fetches.drop_first().len() ==> fetches.drop_first()[i] == fetches[i + 1]);
        lemma_value_retained(v, fetches.drop_first());
    }
}

} // verus!
