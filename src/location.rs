use vstd::prelude::*;
use crate::error::CoreError;

verus! {

/// One field of a location service's JSON reply, as the location check reads it.
pub enum ReplyField {
    /// The key is not in the reply.
    Missing,
    /// The key is there and its value is not a string.
    NotText,
    /// The key is there with this string value.
    Text(String),
}

/// What the location check reads from a location service that answered with a JSON object.
pub struct LocationReply {
    pub country_code: ReplyField,
    pub cc: ReplyField,
    pub ip: ReplyField,
}

/// How one query of a location service went.
pub enum ServiceOutcome {
    /// No response, or a body that is not JSON: the service is skipped.
    Unresponsive,
    Replied(LocationReply),
}

/// What the location check does next.
pub enum CheckStep {
    /// Query the service at this index of `location_services()`.
    Query(usize),
    /// The check is over, with this result.
    Done(Result<String, CoreError>),
}

/// The country code that the location check requires.
pub open spec fn required_country() -> Seq<char> {
    "JP"@
}

/// The observed country: `country_code` is looked up first and `cc` only when
/// that key is missing; a value that is not a string counts as empty.
pub open spec fn observed_country(r: LocationReply) -> Seq<char> {
    match r.country_code {
        ReplyField::Text(c) => c@,
        ReplyField::NotText => Seq::empty(),
        ReplyField::Missing => match r.cc {
            ReplyField::Text(c) => c@,
            _ => Seq::empty(),
        },
    }
}

/// The observed IP, `unknown` when the reply has no string under `ip`.
pub open spec fn observed_ip(r: LocationReply) -> Seq<char> {
    match r.ip {
        ReplyField::Text(ip) => ip@,
        _ => "unknown"@,
    }
}

pub open spec fn confirmation_text(ip: Seq<char>) -> Seq<char> {
    "Connected via Japan IP ("@ + ip + ")"@
}

/// The verdict on one reply: success when the observed country is the required
/// one, a denial naming the observed country and IP otherwise.
pub open spec fn reply_verdict_holds(r: LocationReply, res: Result<String, CoreError>) -> bool {
    if observed_country(r) == required_country() {
        res matches Ok(m) && m@ == confirmation_text(observed_ip(r))
    } else {
        res matches Err(CoreError::LocationDenied { country, ip })
            && country@ == observed_country(r) && ip@ == observed_ip(r)
    }
}

/// The lookup services, queried in this order.
pub fn location_services() -> (r: Vec<String>)
    ensures
        r@.len() == 2,
        r@[0]@ == "https://ipapi.co/json/"@,
        r@[1]@ == "https://ip.seeip.org/geoip"@,
{
    let mut r: Vec<String> = Vec::new();
    r.push(String::from_str("https://ipapi.co/json/"));
    r.push(String::from_str("https://ip.seeip.org/geoip"));
    r
}

fn field_text(f: &ReplyField) -> (r: Option<String>)
    ensures
        match f {
            ReplyField::Text(s) => r == Some(*s),
            _ => r is None,
        },
{
    match f {
        ReplyField::Text(s) => Some(s.clone()),
        _ => None,
    }
}

/// Decides the location check's result from the first reply that could be read.
pub fn evaluate_reply(r: &LocationReply) -> (res: Result<String, CoreError>)
    ensures
        reply_verdict_holds(*r, res),
{
    let country = match &r.country_code {
        ReplyField::Missing => match field_text(&r.cc) {
            Some(c) => c,
            None => String::new(),
        },
        other => match field_text(other) {
            Some(c) => c,
            None => String::new(),
        },
    };
    let ip = match field_text(&r.ip) {
        Some(ip) => ip,
        None => String::from_str("unknown"),
    };
    assert(country@ == observed_country(*r));
    let required = String::from_str("JP");
    if country == required {
        let mut m = String::from_str("Connected via Japan IP (");
        m.append(ip.as_str());
        m.append(")");
        Ok(m)
    } else {
        Err(CoreError::LocationDenied { country, ip })
    }
}

/// Whether `step` is the right first move of a location check over `count` services.
pub open spec fn first_step_holds(count: usize, step: CheckStep) -> bool {
    if count > 0 {
        step == CheckStep::Query(0)
    } else {
        step matches CheckStep::Done(Err(CoreError::NetworkUnverifiable))
    }
}

/// Whether `step` is the right move after querying service `index` of `count`.
/// A reply ends the check at once, whatever its verdict; an unresponsive
/// service passes the check on to the next one, and the last one to a
/// "could not verify" failure.
pub open spec fn next_step_holds(count: usize, index: usize, outcome: ServiceOutcome, step: CheckStep) -> bool {
    match outcome {
        ServiceOutcome::Replied(r) => step matches CheckStep::Done(res) && reply_verdict_holds(r, res),
        ServiceOutcome::Unresponsive => if index + 1 < count {
            step == CheckStep::Query((index + 1) as usize)
        } else {
            step matches CheckStep::Done(Err(CoreError::NetworkUnverifiable))
        },
    }
}

/// The location check's first move over `count` services.
pub fn check_start(count: usize) -> (step: CheckStep)
    ensures
        first_step_holds(count, step),
{
    if count > 0 {
        CheckStep::Query(0)
    } else {
        CheckStep::Done(Err(CoreError::NetworkUnverifiable))
    }
}

/// The location check's move after service `index` of `count` was queried.
pub fn check_after(count: usize, index: usize, outcome: ServiceOutcome) -> (step: CheckStep)
    requires
        index < count,
    ensures
        next_step_holds(count, index, outcome, step),
{
    match outcome {
        ServiceOutcome::Replied(r) => CheckStep::Done(evaluate_reply(&r)),
        ServiceOutcome::Unresponsive => {
            if index + 1 < count {
                CheckStep::Query(index + 1)
            } else {
                CheckStep::Done(Err(CoreError::NetworkUnverifiable))
            }
        },
    }
}

} // verus!
