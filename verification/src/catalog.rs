//! Catalog resolver: the catalog service answers a slug query with a JSON
//! array of market objects. Resolution parses the response body, takes the
//! first market if any, and reads its recognized fields into a market record
//! of plain values. A malformed body is the resolver's one error; an empty
//! array is a valid "not found" outcome, never an error.

use vstd::prelude::*;
use serde_json::Value;
use crate::report::{opt_lines, push_labeled};
use crate::tokens::{token_ids_of, split_token_ids};

verus! {

/// A market record: the recognized fields of one catalog market object, each
/// absent when the object lacks it or gives it an unexpected shape. The
/// `active` and `volume_24hr` fields hold the JSON value rendered as text,
/// since they are only ever reported verbatim; `clob_token_ids` holds the
/// comma-separated token-identifier list.
#[derive(Clone, Debug)]
pub struct MarketRecord {
    pub question: Option<String>,
    pub slug: Option<String>,
    pub end_date: Option<String>,
    pub active: Option<String>,
    pub volume_24hr: Option<String>,
    pub clob_token_ids: Option<String>,
}

/// The mathematical value of a market record: each field as an optional
/// character sequence.
pub struct MarketRecordV {
    pub question: Option<Seq<char>>,
    pub slug: Option<Seq<char>>,
    pub end_date: Option<Seq<char>>,
    pub active: Option<Seq<char>>,
    pub volume_24hr: Option<Seq<char>>,
    pub clob_token_ids: Option<Seq<char>>,
}

impl View for MarketRecord {
    type V = MarketRecordV;

    open spec fn view(&self) -> MarketRecordV {
        MarketRecordV {
            question: self.question.deep_view(),
            slug: self.slug.deep_view(),
            end_date: self.end_date.deep_view(),
            active: self.active.deep_view(),
            volume_24hr: self.volume_24hr.deep_view(),
            clob_token_ids: self.clob_token_ids.deep_view(),
        }
    }
}

/// Resolver-level errors: the transport failed before a body arrived, or the
/// body was not the expected JSON array of market objects.
#[derive(Clone, Copy, PartialEq, Eq, Structural, Debug)]
pub enum MonitorError {
    Transport,
    MalformedBody,
}

/// How many market objects the catalog body holds: `None` when the body does
/// not parse as a JSON array of values, otherwise the array's length.
pub uninterp spec fn catalog_market_count(body: Seq<char>) -> Option<nat>;

/// The recognized fields of the catalog body's first market object, as the
/// field extraction reads them. Meaningful only when the body parses as a
/// non-empty JSON array.
pub uninterp spec fn first_market_record_of(body: Seq<char>) -> MarketRecordV;

/// Relies on serde_json::from_str deserializing a JSON array into a vector
/// of JSON values, on serde_json::Value::get and Value::as_str to read the
/// first market's text fields, and on Value's Display impl (through
/// ToString) for the two fields reported verbatim. Whether the body parses,
/// whether the array is empty, and the extracted fields are all functions of
/// the text alone; each field is moved into the record unchanged, absent or
/// differently shaped fields become None. The outer option is the parse, the
/// inner the first market.
#[verifier::external_body]
fn parse_catalog_body(body: &str) -> (r: Option<Option<MarketRecord>>)
    ensures
        r is Some <==> catalog_market_count(body@) is Some,
        r matches Some(first) ==> (first is Some <==> (catalog_market_count(body@) matches Some(
            n,
        ) && n > 0)),
        r matches Some(first) ==> (first matches Some(m) ==> m@ == first_market_record_of(
            body@,
        )),
{
    let markets: Vec<Value> = match serde_json::from_str(body) {
        Ok(v) => v,
        Err(_) => return None,
    };
    Some(markets.first().map(|v| MarketRecord {
        question: v.get("question").and_then(Value::as_str).map(str::to_string),
        slug: v.get("slug").and_then(Value::as_str).map(str::to_string),
        end_date: v.get("endDate").and_then(Value::as_str).map(str::to_string),
        active: v.get("active").map(|x| x.to_string()),
        volume_24hr: v.get("volume24hr").map(|x| x.to_string()),
        clob_token_ids: v.get("clobTokenIds").and_then(Value::as_str).map(str::to_string),
    }))
}

/// Resolves a catalog response body: the first market record when the body
/// is a non-empty JSON array, "not found" when the array is empty, and a
/// malformed-body error exactly when the body is not such an array.
pub fn resolve_catalog_body(body: &str) -> (r: Result<Option<MarketRecord>, MonitorError>)
    ensures
        r is Err <==> catalog_market_count(body@) is None,
        r is Err ==> (r matches Err(e) && e == MonitorError::MalformedBody),
        r matches Ok(None) <==> catalog_market_count(body@) == Some(0 as nat),
        r matches Ok(Some(_)) <==> (catalog_market_count(body@) matches Some(n) && n > 0),
        r matches Ok(Some(m)) ==> m@ == first_market_record_of(body@),
{
    match parse_catalog_body(body) {
        Option::None => Err(MonitorError::MalformedBody),
        Option::Some(Option::None) => Ok(None),
        Option::Some(Option::Some(m)) => Ok(Some(m)),
    }
}

/// The token identifiers a record carries: the split-and-trimmed pieces of
/// its comma-separated field, or none when the field is absent.
pub open spec fn record_token_ids(m: MarketRecordV) -> Seq<Seq<char>> {
    match m.clob_token_ids {
        Option::Some(s) => token_ids_of(s),
        Option::None => Seq::<Seq<char>>::empty(),
    }
}

/// The token identifiers of a market record. Never fails: an absent field
/// yields the empty list, signaling "not yet tradable".
pub fn market_token_ids(record: &MarketRecord) -> (r: Vec<String>)
    ensures
        r.deep_view() == record_token_ids(record@),
{
    match &record.clob_token_ids {
        Option::Some(s) => split_token_ids(s.as_str()),
        Option::None => Vec::new(),
    }
}

/// The token identifiers named by a catalog response body: those of the
/// first market, the empty list when the catalog answered with an empty
/// array, and a malformed-body error exactly when the body does not parse.
pub fn token_ids_from_body(body: &str) -> (r: Result<Vec<String>, MonitorError>)
    ensures
        r is Err <==> catalog_market_count(body@) is None,
        r is Err ==> (r matches Err(e) && e == MonitorError::MalformedBody),
        catalog_market_count(body@) == Some(0 as nat) ==> (r matches Ok(v) && v@.len() == 0),
        (catalog_market_count(body@) matches Some(n) && n > 0) ==> (r matches Ok(v)
            && v.deep_view() == record_token_ids(first_market_record_of(body@))),
{
    match resolve_catalog_body(body) {
        Err(e) => Err(e),
        Ok(None) => Ok(Vec::new()),
        Ok(Some(record)) => Ok(market_token_ids(&record)),
    }
}

/// The report lines of a market record: one labeled line per present field,
/// in the fixed order question, slug, end date, active flag, 24-hour volume.
pub open spec fn details_report(m: MarketRecordV) -> Seq<Seq<char>> {
    opt_lines("Question: "@, m.question) + opt_lines("Slug: "@, m.slug) + opt_lines(
        "End Date: "@,
        m.end_date,
    ) + opt_lines("Active: "@, m.active) + opt_lines("24h Volume: "@, m.volume_24hr)
}

/// The structured report of a market record's fields: every present field is
/// represented, absent fields are skipped.
pub fn market_details_report(m: &MarketRecord) -> (r: Vec<String>)
    ensures
        r.deep_view() == details_report(m@),
{
    let mut lines: Vec<String> = Vec::new();
    push_labeled(&mut lines, "Question: ", &m.question);
    push_labeled(&mut lines, "Slug: ", &m.slug);
    push_labeled(&mut lines, "End Date: ", &m.end_date);
    push_labeled(&mut lines, "Active: ", &m.active);
    push_labeled(&mut lines, "24h Volume: ", &m.volume_24hr);
    proof {
        assert(lines.deep_view() =~= details_report(m@));
    }
    lines
}

} // verus!
