//! Classification of inbound events.
//!
//! Three interaction shapes arrive on one endpoint: a flat form whose
//! trigger identifier asks to open the dialog, a structured payload tagged
//! as a block action doing the same, and a structured payload tagged as a
//! view submission carrying form data. Everything else is rejected.

use vstd::prelude::*;
use crate::event::{SlackDoc, str_eq};
use crate::signature::{AuthError, auth_spec, authenticate};

verus! {

/// The value under the first occurrence of `key` in decoded form pairs.
pub open spec fn lookup_pairs(pairs: Seq<(Seq<char>, Seq<char>)>, key: Seq<char>) -> Option<
    Seq<char>,
>
    decreases pairs.len(),
{
    if pairs.len() == 0 {
        None
    } else if pairs.first().0 == key {
        Some(pairs.first().1)
    } else {
        lookup_pairs(pairs.drop_first(), key)
    }
}

/// What URL-encoded form data decodes to: its key/value pairs in order, or
/// nothing when the input is not well-formed. A function of the input alone.
pub uninterp spec fn form_decode_of(body: Seq<char>) -> Option<Seq<(Seq<char>, Seq<char>)>>;

/// Relies on serde_urlencoded::from_str, decoding URL-encoded form data
/// into its key/value pairs in order.
#[verifier::external_body]
fn decode_form(body: &str) -> (r: Option<Vec<(String, String)>>)
    ensures
        r.deep_view() == form_decode_of(body@),
{
    serde_urlencoded::from_str::<Vec<(String, String)>>(body).ok()
}

/// How one inbound call is dispatched, up to the point where a structured
/// payload would have to be parsed.
#[derive(Clone, Debug, PartialEq, Eq)]
pub enum Decision {
    /// Authentication failed; terminal, nothing else runs.
    Reject(AuthError),
    /// A flat form carried a non-empty trigger identifier: open the dialog.
    DisplayForm(String),
    /// A payload field is present: parse it and classify the document.
    ParsePayload(String),
    /// No recognizable shape; terminal client error.
    Unknown,
}

/// The ghost mirror of `Decision`.
pub enum SpecDecision {
    Reject(AuthError),
    DisplayForm(Seq<char>),
    ParsePayload(Seq<char>),
    Unknown,
}

/// What a `Decision` says, over views.
pub open spec fn decision_view(d: Decision) -> SpecDecision {
    match d {
        Decision::Reject(e) => SpecDecision::Reject(e),
        Decision::DisplayForm(t) => SpecDecision::DisplayForm(t@),
        Decision::ParsePayload(p) => SpecDecision::ParsePayload(p@),
        Decision::Unknown => SpecDecision::Unknown,
    }
}

/// Routing of the decoded form fields alone, once authentication has
/// passed: a present, non-empty trigger identifier opens the dialog
/// regardless of any other keys; otherwise a present payload field is
/// handed on for parsing; otherwise the shape is unrecognized.
pub open spec fn form_route_spec(pairs: Seq<(Seq<char>, Seq<char>)>) -> SpecDecision {
    let trigger = lookup_pairs(pairs, "trigger_id"@);
    let payload = lookup_pairs(pairs, "payload"@);
    if trigger is Some && trigger->0.len() > 0 {
        SpecDecision::DisplayForm(trigger->0)
    } else if payload is Some {
        SpecDecision::ParsePayload(payload->0)
    } else {
        SpecDecision::Unknown
    }
}

/// The whole pre-parse pipeline: the authentication gate first, then the
/// form decode, then the routing of the decoded fields.
pub open spec fn decision_of(
    secret: Seq<char>,
    body: Seq<char>,
    signature: Option<Seq<char>>,
    timestamp: Option<Seq<char>>,
) -> SpecDecision {
    match auth_spec(secret, body, signature, timestamp) {
        Err(e) => SpecDecision::Reject(e),
        Ok(_) => match form_decode_of(body) {
            None => SpecDecision::Unknown,
            Some(pairs) => form_route_spec(pairs),
        },
    }
}

proof fn lemma_lookup_pairs_step(pairs: Seq<(Seq<char>, Seq<char>)>, key: Seq<char>, i: int)
    requires
        0 <= i < pairs.len(),
        pairs[i].0 != key,
    ensures
        lookup_pairs(pairs.skip(i), key) == lookup_pairs(pairs.skip(i + 1), key),
{
    assert(pairs.skip(i).drop_first() =~= pairs.skip(i + 1));
}

/// The value under the first occurrence of `key` among the decoded pairs.
pub fn form_lookup(pairs: &Vec<(String, String)>, key: &str) -> (r: Option<String>)
    ensures
        r.deep_view() == lookup_pairs(pairs.deep_view(), key@),
{
    let ghost dv = pairs.deep_view();
    let mut i: usize = 0;
    assert(dv.skip(0) =~= dv);
    while i < pairs.len()
        invariant
            i <= pairs@.len(),
            dv == pairs.deep_view(),
            lookup_pairs(dv, key@) == lookup_pairs(dv.skip(i as int), key@),
        decreases pairs@.len() - i,
    {
        assert(dv[i as int] == pairs@[i as int].deep_view());
        let pair = &pairs[i];
        if str_eq(pair.0.as_str(), key) {
            assert(dv.skip(i as int).first() == dv[i as int]);
            return Some(pair.1.clone());
        }
        proof {
            lemma_lookup_pairs_step(dv, key@, i as int);
        }
        i = i + 1;
    }
    None
}

/// Decide how an inbound call is dispatched: authenticate it, decode its
/// body as URL-encoded form data, and route the decoded fields. Rejection
/// for a missing or invalid signature comes before any classification.
pub fn triage_request(
    secret: &str,
    body: &str,
    signature: &Option<String>,
    timestamp: &Option<String>,
) -> (r: Decision)
    ensures
        decision_view(r) == decision_of(
            secret@,
            body@,
            signature.deep_view(),
            timestamp.deep_view(),
        ),
{
    if let Err(e) = authenticate(secret, body, signature, timestamp) {
        return Decision::Reject(e);
    }
    let pairs = match decode_form(body) {
        Some(p) => p,
        None => { return Decision::Unknown },
    };
    let trigger = form_lookup(&pairs, "trigger_id");
    let use_trigger = match &trigger {
        Some(t) => !t.as_str().is_empty(),
        None => false,
    };
    if use_trigger {
        return Decision::DisplayForm(trigger.unwrap());
    }
    match form_lookup(&pairs, "payload") {
        Some(p) => Decision::ParsePayload(p),
        None => Decision::Unknown,
    }
}

/// The route of a structured payload.
#[derive(Clone, Debug, PartialEq, Eq)]
pub enum Route {
    /// Open the dialog identified by this trigger identifier.
    DisplayForm(String),
    /// Hand the document's view on to field extraction and orchestration.
    ProcessSubmission(SlackDoc),
    /// Unrecognized document; terminal client error, no side effects.
    Rejected,
}

/// The ghost mirror of `Route`.
pub enum SpecRoute {
    DisplayForm(Seq<char>),
    ProcessSubmission(SlackDoc),
    Rejected,
}

/// What a `Route` says, over views.
pub open spec fn route_view(r: Route) -> SpecRoute {
    match r {
        Route::DisplayForm(t) => SpecRoute::DisplayForm(t@),
        Route::ProcessSubmission(doc) => SpecRoute::ProcessSubmission(doc),
        Route::Rejected => SpecRoute::Rejected,
    }
}

/// Classification of a parsed structured payload (`None` when the payload
/// field did not parse): the block-action tag with a trigger identifier
/// opens the dialog; the view-submission tag hands the document on; any
/// other tag, or an unparsable payload, is rejected.
pub open spec fn classify_payload_spec(parsed: Option<SlackDoc>) -> SpecRoute {
    match parsed {
        None => SpecRoute::Rejected,
        Some(doc) => {
            if doc.payload_type is Some && doc.payload_type->0@ == "block_actions"@
                && doc.trigger_id is Some {
                SpecRoute::DisplayForm(doc.trigger_id->0@)
            } else if doc.payload_type is Some && doc.payload_type->0@ == "view_submission"@ {
                SpecRoute::ProcessSubmission(doc)
            } else {
                SpecRoute::Rejected
            }
        },
    }
}

/// The two recognized type tags are distinct strings.
proof fn lemma_tags_differ()
    ensures
        "block_actions"@ != "view_submission"@,
{
    reveal_strlit("block_actions");
    reveal_strlit("view_submission");
    assert("block_actions"@.len() == 13);
    assert("view_submission"@.len() == 15);
}

/// Route a parsed structured payload, or reject one that did not parse.
pub fn classify_payload(parsed: Option<SlackDoc>) -> (r: Route)
    ensures
        route_view(r) == classify_payload_spec(parsed),
{
    proof {
        lemma_tags_differ();
    }
    let doc = match parsed {
        Some(d) => d,
        None => { return Route::Rejected },
    };
    let is_block_actions = match &doc.payload_type {
        Some(t) => str_eq(t.as_str(), "block_actions"),
        None => false,
    };
    if is_block_actions {
        match doc.trigger_id {
            Some(t) => { return Route::DisplayForm(t) },
            None => { return Route::Rejected },
        }
    }
    let is_view_submission = match &doc.payload_type {
        Some(t) => str_eq(t.as_str(), "view_submission"),
        None => false,
    };
    if is_view_submission {
        Route::ProcessSubmission(doc)
    } else {
        Route::Rejected
    }
}

/// A missing (or empty) signature or timestamp header rejects the request
/// before any decoding or classification runs, whatever the body holds.
pub proof fn lemma_missing_header_rejects(
    secret: Seq<char>,
    body: Seq<char>,
    signature: Option<Seq<char>>,
    timestamp: Option<Seq<char>>,
)
    requires
        signature is None || timestamp is None,
    ensures
        decision_of(secret, body, signature, timestamp) == (if signature is None || signature->0.len()
            == 0 {
            SpecDecision::Reject(AuthError::MissingSignature)
        } else {
            SpecDecision::Reject(AuthError::MissingTimestamp)
        }),
{
}

/// A flat form carrying a non-empty trigger identifier always routes to
/// opening the dialog with that identifier, regardless of any other keys
/// present in the form.
pub proof fn lemma_flat_trigger_displays(pairs: Seq<(Seq<char>, Seq<char>)>, t: Seq<char>)
    requires
        lookup_pairs(pairs, "trigger_id"@) == Some(t),
        t.len() > 0,
    ensures
        form_route_spec(pairs) == SpecDecision::DisplayForm(t),
{
}

/// The three-way classification of a structured payload: a block action
/// with a trigger identifier opens the dialog, a view submission is handed
/// on whole, and every other tag — or a payload that did not parse — is
/// rejected.
pub proof fn lemma_payload_classification(parsed: Option<SlackDoc>)
    ensures
        parsed is None ==> classify_payload_spec(parsed) == SpecRoute::Rejected,
        parsed is Some && parsed->0.payload_type is Some && parsed->0.payload_type->0@
            == "block_actions"@ && parsed->0.trigger_id is Some ==> classify_payload_spec(parsed)
            == SpecRoute::DisplayForm(parsed->0.trigger_id->0@),
        parsed is Some && parsed->0.payload_type is Some && parsed->0.payload_type->0@
            == "view_submission"@ ==> classify_payload_spec(parsed) == SpecRoute::ProcessSubmission(
            parsed->0,
        ),
        parsed is Some && !(parsed->0.payload_type is Some && (parsed->0.payload_type->0@
            == "block_actions"@ || parsed->0.payload_type->0@ == "view_submission"@))
            ==> classify_payload_spec(parsed) == SpecRoute::Rejected,
{
    lemma_tags_differ();
}

} // verus!
