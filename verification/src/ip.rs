//! Choosing the externally visible address from the lookup services'
//! answers.
//!
//! The server asks a few public IP-echo services in a fixed order and
//! announces the first answer, trimmed of surrounding whitespace. Shelling
//! out to fetch each answer is the front end's job; this module fixes which
//! services are asked, in what order they are preferred, and what is made
//! of their answers.

use vstd::prelude::*;

use crate::text::trim_line;
use crate::text::trim_spec;

verus! {

use vstd::string::StringExecFns;

/// Every lookup service failed or was unreachable.
#[derive(Debug, PartialEq, Eq, Structural)]
pub enum IpLookupError {
    AllServicesFailed,
}

impl IpLookupError {
    /// The diagnostic shown to the operator.
    pub fn describe(&self) -> (r: String)
        ensures
            r@ == "All IP lookup services failed"@,
    {
        String::from_str("All IP lookup services failed")
    }
}

/// The IP-echo services asked, in order of preference.
pub fn ip_service_urls() -> (r: Vec<String>)
    ensures
        r@.len() == 4,
        r@[0]@ == "https://api.ipify.org"@,
        r@[1]@ == "https://icanhazip.com"@,
        r@[2]@ == "https://ifconfig.me/ip"@,
        r@[3]@ == "https://checkip.amazonaws.com"@,
{
    let mut r: Vec<String> = Vec::new();
    r.push(String::from_str("https://api.ipify.org"));
    r.push(String::from_str("https://icanhazip.com"));
    r.push(String::from_str("https://ifconfig.me/ip"));
    r.push(String::from_str("https://checkip.amazonaws.com"));
    r
}

/// The first answer among the services' outcomes, scanning from position
/// `i` on.
pub open spec fn first_answer_from(rs: Seq<Option<Seq<char>>>, i: int) -> Option<Seq<char>>
    decreases rs.len() - i,
{
    if i < 0 || i >= rs.len() {
        None
    } else {
        match rs[i] {
            Some(s) => Some(s),
            None => first_answer_from(rs, i + 1),
        }
    }
}

/// What the lookup reports: the first service's answer, trimmed, or nothing
/// when every service failed.
pub open spec fn external_ip_spec(rs: Seq<Option<Seq<char>>>) -> Option<Seq<char>> {
    match first_answer_from(rs, 0) {
        Some(s) => Some(trim_spec(s)),
        None => None,
    }
}

/// Pick the external address from the services' answers: the first answer
/// in preference order, trimmed of surrounding whitespace, or an error if
/// and only if every service failed. `answers[i]` is what the service at
/// position `i` of [`ip_service_urls`] returned, `None` where it failed.
pub fn get_external_ip(answers: &Vec<Option<String>>) -> (r: Result<String, IpLookupError>)
    ensures
        match r {
            Ok(ip) => external_ip_spec(answers.deep_view()) == Some(ip@),
            Err(e) => external_ip_spec(answers.deep_view()) is None && e
                == IpLookupError::AllServicesFailed,
        },
{
    let ghost dv = answers.deep_view();
    let mut i: usize = 0;
    while i < answers.len()
        invariant
            0 <= i <= answers.len(),
            dv == answers.deep_view(),
            dv.len() == answers@.len(),
            first_answer_from(dv, 0) == first_answer_from(dv, i as int),
        decreases answers.len() - i,
    {
        proof {
            assert(dv[i as int] == answers@[i as int].deep_view());
        }
        match &answers[i] {
            Some(answer) => {
                let trimmed = trim_line(answer.as_str());
                return Ok(trimmed.to_owned());
            },
            None => {},
        }
        i = i + 1;
    }
    Err(IpLookupError::AllServicesFailed)
}

} // verus!
