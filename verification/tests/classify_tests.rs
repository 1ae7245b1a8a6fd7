use fngbot::classify::{classify_payload, triage_request, Decision, Route};
use fngbot::event::{SlackBlock, SlackDoc, SlackView};
use fngbot::signature::{sign, AuthError};

fn signed(secret: &str, body: &str, timestamp: &str) -> (Option<String>, Option<String>) {
    (Some(sign(secret, body, timestamp)), Some(timestamp.to_string()))
}

#[test]
fn flat_trigger_routes_to_display() {
    let secret = "sekrit";
    let body = "token=abc&trigger_id=13345224609.738474920&team_id=T1DC2JH3J&channel=C2147483705";
    let (sig, ts) = signed(secret, body, "1531420618");
    let d = triage_request(secret, body, &sig, &ts);
    assert_eq!(d, Decision::DisplayForm("13345224609.738474920".to_string()));
}

#[test]
fn empty_flat_trigger_does_not_display() {
    let secret = "sekrit";
    let body = "trigger_id=&other=1";
    let (sig, ts) = signed(secret, body, "1531420618");
    let d = triage_request(secret, body, &sig, &ts);
    assert_eq!(d, Decision::Unknown);
}

#[test]
fn payload_field_is_handed_on_for_parsing() {
    let secret = "sekrit";
    let body = "payload=%7B%22type%22%3A%22view_submission%22%7D";
    let (sig, ts) = signed(secret, body, "1531420618");
    let d = triage_request(secret, body, &sig, &ts);
    // the decoded payload value, not the raw percent-encoded text
    assert_eq!(d, Decision::ParsePayload("{\"type\":\"view_submission\"}".to_string()));
}

#[test]
fn no_recognized_field_is_unknown() {
    let secret = "sekrit";
    let body = "team_id=T1DC2JH3J&channel=C2147483705";
    let (sig, ts) = signed(secret, body, "1531420618");
    let d = triage_request(secret, body, &sig, &ts);
    assert_eq!(d, Decision::Unknown);
}

#[test]
fn bad_signature_rejects_before_classification() {
    let secret = "sekrit";
    let body = "trigger_id=13345224609.738474920";
    let sig = Some("v0=not-the-right-signature".to_string());
    let ts = Some("1531420618".to_string());
    let d = triage_request(secret, body, &sig, &ts);
    assert_eq!(d, Decision::Reject(AuthError::InvalidSignature));
}

#[test]
fn missing_headers_reject_before_classification() {
    let secret = "sekrit";
    let body = "trigger_id=13345224609.738474920";
    let d = triage_request(secret, body, &None, &None);
    assert_eq!(d, Decision::Reject(AuthError::MissingSignature));
    let sig = Some(sign(secret, body, "1531420618"));
    let d = triage_request(secret, body, &sig, &None);
    assert_eq!(d, Decision::Reject(AuthError::MissingTimestamp));
}

fn doc(payload_type: Option<&str>, trigger_id: Option<&str>, view: Option<SlackView>) -> SlackDoc {
    SlackDoc {
        payload_type: payload_type.map(|s| s.to_string()),
        trigger_id: trigger_id.map(|s| s.to_string()),
        view,
    }
}

#[test]
fn block_actions_with_trigger_displays() {
    let d = doc(Some("block_actions"), Some("tr-900"), None);
    let r = classify_payload(Some(d));
    assert_eq!(r, Route::DisplayForm("tr-900".to_string()));
}

#[test]
fn block_actions_without_trigger_rejected() {
    let d = doc(Some("block_actions"), None, None);
    assert_eq!(classify_payload(Some(d)), Route::Rejected);
}

#[test]
fn view_submission_processes() {
    let view = SlackView {
        blocks: vec![SlackBlock {
            block_id: Some("b1".to_string()),
            label: Some("F3 Name".to_string()),
            action_id: Some("a1".to_string()),
        }],
        state: vec![],
    };
    let d = doc(Some("view_submission"), None, Some(view));
    let expected = d.clone();
    assert_eq!(classify_payload(Some(d)), Route::ProcessSubmission(expected));
}

#[test]
fn other_type_tag_rejected() {
    let d = doc(Some("shortcut"), Some("tr-900"), None);
    assert_eq!(classify_payload(Some(d)), Route::Rejected);
}

#[test]
fn absent_type_tag_rejected() {
    let d = doc(None, Some("tr-900"), None);
    assert_eq!(classify_payload(Some(d)), Route::Rejected);
}

#[test]
fn unparsable_payload_rejected() {
    assert_eq!(classify_payload(None), Route::Rejected);
}

#[test]
fn classification_is_stable_on_resubmission() {
    let d = doc(Some("view_submission"), None, None);
    let first = classify_payload(Some(d.clone()));
    let second = classify_payload(Some(d));
    assert_eq!(first, second);
}
