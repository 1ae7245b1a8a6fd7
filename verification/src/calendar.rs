//! Plain-value shaping for the calendar read endpoint.
//!
//! The endpoint itself — one parameterized read against the relational
//! store — is an external collaborator; only the shaping of its rows and of
//! the response envelope is logic of this crate. Each row cell arrives as
//! an already-converted optional string.

use vstd::prelude::*;

verus! {

/// One row of the calendar response.
#[derive(Clone, Debug, PartialEq, Eq)]
pub struct CalendarEntry {
    pub ao: String,
    pub date: String,
    pub special: String,
    pub q: Option<String>,
}

/// The calendar response envelope: a fixed success code and status, then
/// the rows.
#[derive(Clone, Debug, PartialEq, Eq)]
pub struct CalendarResponse {
    pub code: u16,
    pub status: String,
    pub responses: Vec<CalendarEntry>,
}

/// Shape one row: a missing display name or date is reported as an error
/// marker, a missing special note becomes empty, and a missing leader name
/// stays absent.
pub fn calendar_entry(
    ao: Option<String>,
    date: Option<String>,
    special: Option<String>,
    q: Option<String>,
) -> (r: CalendarEntry)
    ensures
        r.ao@ == (if ao is Some {
            ao->0@
        } else {
            "ERROR"@
        }),
        r.date@ == (if date is Some {
            date->0@
        } else {
            "ERROR"@
        }),
        r.special@ == (if special is Some {
            special->0@
        } else {
            Seq::<char>::empty()
        }),
        r.q == q,
{
    let ao = match ao {
        Some(v) => v,
        None => "ERROR".to_owned(),
    };
    let date = match date {
        Some(v) => v,
        None => "ERROR".to_owned(),
    };
    let special = match special {
        Some(v) => v,
        None => String::new(),
    };
    CalendarEntry { ao, date, special, q }
}

/// Wrap shaped rows in the response envelope.
pub fn calendar_response(responses: Vec<CalendarEntry>) -> (r: CalendarResponse)
    ensures
        r.code == 200,
        r.status@ == "OK"@,
        r.responses == responses,
{
    CalendarResponse { code: 200, status: "OK".to_owned(), responses }
}

/// The client address reported for a request: the forwarding header when
/// present, else the direct-client header, else the peer address, else
/// empty.
pub open spec fn client_ip_spec(
    forwarded_for: Option<Seq<char>>,
    real_ip: Option<Seq<char>>,
    peer: Option<Seq<char>>,
) -> Seq<char> {
    if forwarded_for is Some {
        forwarded_for->0
    } else if real_ip is Some {
        real_ip->0
    } else if peer is Some {
        peer->0
    } else {
        Seq::<char>::empty()
    }
}

/// Pick the client address to report from the two proxy headers and the
/// peer address, in that order.
pub fn client_ip(
    forwarded_for: Option<String>,
    real_ip: Option<String>,
    peer: Option<String>,
) -> (r: String)
    ensures
        r@ == client_ip_spec(forwarded_for.deep_view(), real_ip.deep_view(), peer.deep_view()),
{
    if let Some(v) = forwarded_for {
        return v;
    }
    if let Some(v) = real_ip {
        return v;
    }
    if let Some(v) = peer {
        return v;
    }
    String::new()
}

} // verus!
