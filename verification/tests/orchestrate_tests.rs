use fngbot::extract::FieldValues;
use fngbot::orchestrate::{
    display_dialog_payload, invite_body, invite_line, invite_subject, mailbox, mailchimp_body,
    mailchimp_line, mailchimp_url, submission_response, welcome_body, welcome_line, welcome_text,
    Outcome,
};

fn fields() -> FieldValues {
    FieldValues {
        f3_name: "Slim".to_string(),
        hospital_name: "Jim Smith".to_string(),
        email: "jim@example.org".to_string(),
        cell: "5551234567".to_string(),
    }
}

#[test]
fn status_lines_exact() {
    assert_eq!(mailchimp_line(Outcome::Success), "✅ Success adding user to the mailing list!");
    assert_eq!(mailchimp_line(Outcome::Failure), "🛑 Could not add user to the mailing list.");
    assert_eq!(invite_line(Outcome::Success), "✅ Success inviting user to Slack!");
    assert_eq!(invite_line(Outcome::Failure), "🛑 I could not invite the user to Slack.");
    assert_eq!(welcome_line(Outcome::Success), "✅ Success notifying the welcome team!");
    assert_eq!(welcome_line(Outcome::Failure), "🛑 Could not notify the welcome team.");
}

#[test]
fn one_failure_two_successes_in_fixed_order() {
    let m = mailchimp_line(Outcome::Failure);
    let i = invite_line(Outcome::Success);
    let w = welcome_line(Outcome::Success);
    let lines = vec![m.clone(), i.clone(), w.clone()];
    let failures = lines.iter().filter(|l| l.starts_with('🛑')).count();
    let successes = lines.iter().filter(|l| l.starts_with('✅')).count();
    assert_eq!(failures, 1);
    assert_eq!(successes, 2);
    assert!(lines[0].starts_with('🛑'));
    let response = submission_response(Outcome::Failure, Outcome::Success, Outcome::Success);
    assert!(response.contains(&m));
    assert!(response.contains(&i));
    assert!(response.contains(&w));
    let mi = response.find(&m).unwrap();
    let ii = response.find(&i).unwrap();
    let wi = response.find(&w).unwrap();
    assert!(mi < ii && ii < wi);
}

#[test]
fn notification_message_reflects_both_outcomes() {
    let m = mailchimp_line(Outcome::Failure);
    let i = invite_line(Outcome::Success);
    let f = fields();
    let text = welcome_text(&f, &i, &m);
    assert!(text.contains(&i));
    assert!(text.contains(&m));
    let expected = format!(
        "Hi welcome team! A new FNG just posted.  Their contact info is:\nF3 Name: {}\nHospital Name: {}\nEmail Address: {}\nCell Phone: {}\n\nHere are the results of inviting them to slack and adding them to Mailchimp:\n{}\n{}",
        "Slim", "Jim Smith", "jim@example.org", "5551234567", i, m
    );
    assert_eq!(text, expected);
}

#[test]
fn submission_response_is_an_update_modal() {
    let r = submission_response(Outcome::Success, Outcome::Success, Outcome::Success);
    assert!(r.contains("\"response_action\": \"update\""));
    assert!(r.contains("\"type\": \"modal\""));
    assert!(r.contains("\"type\": \"mrkdwn\""));
    assert!(r.contains("Thanks for using FNG Bot!"));
}

#[test]
fn display_payload_embeds_trigger_and_four_labels() {
    let p = display_dialog_payload("13345224609.738474920");
    assert!(p.starts_with("{\n             \"trigger_id\": \"13345224609.738474920\",\n"));
    assert!(p.contains("\"text\": \"F3 Name\""));
    assert!(p.contains("\"text\": \"Hospital Name\""));
    assert!(p.contains("\"text\": \"Email Address\""));
    assert!(p.contains("\"text\": \"Cell Phone\""));
    assert!(p.contains("\"type\": \"modal\""));
}

#[test]
fn mailchimp_url_exact() {
    assert_eq!(
        mailchimp_url("us1.api.mailchimp.com", "abc123"),
        "https://us1.api.mailchimp.com/3.0/lists/abc123?skip_merge_validation=true"
    );
}

#[test]
fn mailchimp_body_places_each_field() {
    let b = mailchimp_body(&fields());
    assert!(b.starts_with("{\"members\": [{\"email_address\": \"jim@example.org\",\n"));
    assert!(b.contains("\"merge_fields\": {\"FULLNAME\": \"Jim Smith\""));
    assert!(b.contains("\"PHONE\": \"5551234567\""));
    assert!(b.contains("\"F3NAME\": \"Slim\""));
    assert!(b.contains("\"status\": \"subscribed\""));
    assert!(b.contains("\"sync_tags\": false"));
    assert!(b.contains("\"update_existing\": false"));
}

#[test]
fn mailbox_exact() {
    assert_eq!(mailbox("F3 St. Charles", "bot@example.org"), "F3 St. Charles <bot@example.org>");
    assert_eq!(mailbox("Jim Smith", "jim@example.org"), "Jim Smith <jim@example.org>");
}

#[test]
fn invite_subject_exact() {
    assert_eq!(invite_subject("F3 St. Charles"), "Join F3 St. Charles on Slack");
}

#[test]
fn invite_body_exact() {
    assert_eq!(
        invite_body("Slim", "F3 St. Charles", "https://join.example.org/x"),
        "Hi Slim! Please join F3 St. Charles on Slack by clicking this <a href=\"https://join.example.org/x\">link</a>."
    );
}

#[test]
fn welcome_body_exact() {
    assert_eq!(
        welcome_body("C024BE91L", "hello team"),
        "{\n                \"channel\": \"C024BE91L\",\n                \"text\": \"hello team\"\n               }"
    );
}
