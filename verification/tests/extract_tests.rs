use fngbot::event::{SlackBlock, SlackDoc, SlackView, StateEntry};
use fngbot::extract::{
    extract_all, get_slack_field, missing_field_reason, FieldValues, MissingField,
};

#[test]
fn missing_field_reasons_exact() {
    assert_eq!(
        missing_field_reason(MissingField::F3Name),
        "F3 Name not specified or not in JSON document"
    );
    assert_eq!(
        missing_field_reason(MissingField::HospitalName),
        "Hospital name not specifid or not in JSON document"
    );
    assert_eq!(missing_field_reason(MissingField::EmailAddress), "Email Address not specified");
    assert_eq!(missing_field_reason(MissingField::CellPhone), "Cell number not provided");
}

fn block(block_id: Option<&str>, label: Option<&str>, action_id: Option<&str>) -> SlackBlock {
    SlackBlock {
        block_id: block_id.map(|s| s.to_string()),
        label: label.map(|s| s.to_string()),
        action_id: action_id.map(|s| s.to_string()),
    }
}

fn entry(block_id: &str, action_id: &str, value: &str) -> StateEntry {
    StateEntry {
        block_id: block_id.to_string(),
        action_id: action_id.to_string(),
        value: value.to_string(),
    }
}

fn doc(view: Option<SlackView>) -> SlackDoc {
    SlackDoc { payload_type: Some("view_submission".to_string()), trigger_id: None, view }
}

#[test]
fn label_resolves_to_state_value() {
    let view = SlackView {
        blocks: vec![block(Some("b1"), Some("F3 Name"), Some("a1"))],
        state: vec![entry("b1", "a1", "Slim")],
    };
    let d = doc(Some(view));
    assert_eq!(get_slack_field(&d, "F3 Name"), Some("Slim".to_string()));
}

#[test]
fn unknown_label_is_absent() {
    let view = SlackView {
        blocks: vec![block(Some("b1"), Some("F3 Name"), Some("a1"))],
        state: vec![entry("b1", "a1", "Slim")],
    };
    let d = doc(Some(view));
    assert_eq!(get_slack_field(&d, "Unknown Label"), None);
}

#[test]
fn matching_block_missing_from_state_is_absent() {
    let view = SlackView {
        blocks: vec![block(Some("b1"), Some("F3 Name"), Some("a1"))],
        state: vec![entry("b2", "a1", "Slim")],
    };
    let d = doc(Some(view));
    assert_eq!(get_slack_field(&d, "F3 Name"), None);
}

#[test]
fn matching_block_without_block_id_is_absent() {
    let view = SlackView {
        blocks: vec![block(None, Some("F3 Name"), Some("a1"))],
        state: vec![entry("b1", "a1", "Slim")],
    };
    let d = doc(Some(view));
    assert_eq!(get_slack_field(&d, "F3 Name"), None);
}

#[test]
fn matching_block_without_action_id_is_absent() {
    let view = SlackView {
        blocks: vec![block(Some("b1"), Some("F3 Name"), None)],
        state: vec![entry("b1", "a1", "Slim")],
    };
    let d = doc(Some(view));
    assert_eq!(get_slack_field(&d, "F3 Name"), None);
}

#[test]
fn first_matching_block_wins() {
    let view = SlackView {
        blocks: vec![
            block(Some("b1"), Some("F3 Name"), Some("a1")),
            block(Some("b2"), Some("F3 Name"), Some("a2")),
        ],
        state: vec![entry("b1", "a1", "First"), entry("b2", "a2", "Second")],
    };
    let d = doc(Some(view));
    assert_eq!(get_slack_field(&d, "F3 Name"), Some("First".to_string()));
}

#[test]
fn document_without_view_is_absent() {
    let d = doc(None);
    assert_eq!(get_slack_field(&d, "F3 Name"), None);
}

fn full_view() -> SlackView {
    SlackView {
        blocks: vec![
            block(Some("b1"), Some("F3 Name"), Some("a1")),
            block(Some("b2"), Some("Hospital Name"), Some("a2")),
            block(Some("b3"), Some("Email Address"), Some("a3")),
            block(Some("b4"), Some("Cell Phone"), Some("a4")),
        ],
        state: vec![
            entry("b1", "a1", "Slim"),
            entry("b2", "a2", "Jim Smith"),
            entry("b3", "a3", "jim@example.org"),
            entry("b4", "a4", "5551234567"),
        ],
    }
}

#[test]
fn all_four_fields_extract() {
    let d = doc(Some(full_view()));
    let fields = extract_all(&d).unwrap();
    assert_eq!(
        fields,
        FieldValues {
            f3_name: "Slim".to_string(),
            hospital_name: "Jim Smith".to_string(),
            email: "jim@example.org".to_string(),
            cell: "5551234567".to_string(),
        }
    );
}

#[test]
fn first_missing_field_named_in_fixed_order() {
    let mut view = full_view();
    view.state.remove(0); // drop the short-name leaf
    let d = doc(Some(view));
    assert_eq!(extract_all(&d), Err(MissingField::F3Name));

    let mut view = full_view();
    view.state.remove(1);
    let d = doc(Some(view));
    assert_eq!(extract_all(&d), Err(MissingField::HospitalName));

    let mut view = full_view();
    view.state.remove(2);
    let d = doc(Some(view));
    assert_eq!(extract_all(&d), Err(MissingField::EmailAddress));

    let mut view = full_view();
    view.state.remove(3);
    let d = doc(Some(view));
    assert_eq!(extract_all(&d), Err(MissingField::CellPhone));
}

#[test]
fn missing_everything_names_first_field() {
    let d = doc(Some(SlackView { blocks: vec![], state: vec![] }));
    assert_eq!(extract_all(&d), Err(MissingField::F3Name));
}

#[test]
fn extraction_is_stable_on_resubmission() {
    let d = doc(Some(full_view()));
    let first = extract_all(&d);
    let second = extract_all(&d);
    assert_eq!(first, second);
    assert_eq!(get_slack_field(&d, "F3 Name"), get_slack_field(&d, "F3 Name"));
}
