//! Exact decimals as they travel on the wire: text parsed into a mantissa and
//! a scale, the value being `mantissa / 10^scale`.

use vstd::prelude::*;
use crate::error::ApiError;

verus! {

/// An exact decimal: `mantissa / 10^scale`.
#[derive(Clone, Copy, PartialEq, Eq, Structural, Debug)]
pub struct Dec {
    pub mantissa: i128,
    pub scale: u32,
}

/// What reading a decimal from text gives: `(mantissa, scale)`, or the display
/// text of the failure.
pub uninterp spec fn decimal_of(s: Seq<char>) -> Result<(int, int), Seq<char>>;

/// A parse outcome in terms of plain values.
pub open spec fn parsed_view(r: Result<Dec, String>) -> Result<(int, int), Seq<char>> {
    match r {
        Ok(d) => Ok((d.mantissa as int, d.scale as int)),
        Err(e) => Err(e@),
    }
}

/// Relies on `rust_decimal::Decimal::from_str` and on `mantissa` and `scale`;
/// the result depends on the text alone.
#[verifier::external_body]
fn decimal_from_str(s: &str) -> (r: Result<Dec, String>)
    ensures
        parsed_view(r) == decimal_of(s@),
{
    match <rust_decimal::Decimal as std::str::FromStr>::from_str(s) {
        Ok(d) => Ok(Dec { mantissa: d.mantissa(), scale: d.scale() }),
        Err(e) => Err(e.to_string()),
    }
}

/// Whether `d` is the decimal that `s` denotes.
pub open spec fn denotes(s: Seq<char>, d: Dec) -> bool {
    decimal_of(s) == Ok::<(int, int), Seq<char>>((d.mantissa as int, d.scale as int))
}

/// Whether `e` is the failure to read `s` as a decimal: `400 bad_request`
/// with the parser's message.
pub open spec fn rejects(s: Seq<char>, e: ApiError) -> bool {
    decimal_of(s) is Err && (e matches ApiError::BadRequest(m) && m@ == decimal_of(s)->Err_0)
}

/// The handler's decision on a parse outcome: a failure is `400 bad_request`
/// with the parser's message.
pub fn decimal_verdict(parsed: Result<Dec, String>) -> (r: Result<Dec, ApiError>)
    ensures
        parsed matches Ok(d) ==> r == Ok::<Dec, ApiError>(d),
        parsed matches Err(e) ==> (r matches Err(ApiError::BadRequest(m)) && m@ == e@),
{
    match parsed {
        Ok(d) => Ok(d),
        Err(e) => Err(ApiError::BadRequest(e)),
    }
}

/// Reads a decimal sent as text.
pub fn parse_decimal(s: &str) -> (r: Result<Dec, ApiError>)
    ensures
        r is Ok <==> decimal_of(s@) is Ok,
        r matches Ok(d) ==> denotes(s@, d),
        r matches Err(e) ==> rejects(s@, e),
{
    decimal_verdict(decimal_from_str(s))
}

/// Reads an optional decimal sent as text; an absent one stays absent.
pub fn parse_optional_decimal(s: Option<String>) -> (r: Result<Option<Dec>, ApiError>)
    ensures
        s is None ==> r == Ok::<Option<Dec>, ApiError>(None),
        s matches Some(t) ==> {
            &&& (r is Ok <==> decimal_of(t@) is Ok)
            &&& (r matches Ok(o) ==> (o matches Some(d) && denotes(t@, d)))
            &&& (r matches Err(e) ==> rejects(t@, e))
        },
{
    match s {
        None => Ok(None),
        Some(t) => match parse_decimal(t.as_str()) {
            Ok(d) => Ok(Some(d)),
            Err(e) => Err(e),
        },
    }
}

} // verus!
