//! Orchestration of a submission's side effects and the texts they carry.
//!
//! A validated submission triggers three independent operations in a fixed
//! order: mailing-list enrollment, invitation dispatch, and an internal
//! notification that reports on the first two. Each operation yields its own
//! outcome; no failure gates a later operation. The composed texts — request
//! bodies, the notification message, and the final status response — are all
//! pure functions of the field values and the outcomes, built here; the
//! surrounding binary only performs the outbound calls.

use vstd::prelude::*;
use vstd::string::StringExecFns;
use crate::extract::FieldValues;

verus! {

/// The result of one externally-invoked operation, independent of its
/// sibling operations.
#[derive(Clone, Copy, Debug, PartialEq, Eq, Structural)]
pub enum Outcome {
    Success,
    Failure,
}

/// The status line reported for mailing-list enrollment.
pub open spec fn mailchimp_line_spec(o: Outcome) -> Seq<char> {
    if o is Success {
        "✅ Success adding user to the mailing list!"@
    } else {
        "🛑 Could not add user to the mailing list."@
    }
}

/// The status line reported for invitation dispatch.
pub open spec fn invite_line_spec(o: Outcome) -> Seq<char> {
    if o is Success {
        "✅ Success inviting user to Slack!"@
    } else {
        "🛑 I could not invite the user to Slack."@
    }
}

/// The status line reported for the internal notification.
pub open spec fn welcome_line_spec(o: Outcome) -> Seq<char> {
    if o is Success {
        "✅ Success notifying the welcome team!"@
    } else {
        "🛑 Could not notify the welcome team."@
    }
}

/// The status line for mailing-list enrollment.
pub fn mailchimp_line(o: Outcome) -> (r: String)
    ensures
        r@ == mailchimp_line_spec(o),
{
    match o {
        Outcome::Success => "✅ Success adding user to the mailing list!".to_owned(),
        Outcome::Failure => "🛑 Could not add user to the mailing list.".to_owned(),
    }
}

/// The status line for invitation dispatch.
pub fn invite_line(o: Outcome) -> (r: String)
    ensures
        r@ == invite_line_spec(o),
{
    match o {
        Outcome::Success => "✅ Success inviting user to Slack!".to_owned(),
        Outcome::Failure => "🛑 I could not invite the user to Slack.".to_owned(),
    }
}

/// The status line for the internal notification.
pub fn welcome_line(o: Outcome) -> (r: String)
    ensures
        r@ == welcome_line_spec(o),
{
    match o {
        Outcome::Success => "✅ Success notifying the welcome team!".to_owned(),
        Outcome::Failure => "🛑 Could not notify the welcome team.".to_owned(),
    }
}

/// The status report: one human-readable line per orchestrated operation,
/// in the fixed order enrollment, invitation, notification.
pub open spec fn report_lines(m: Outcome, i: Outcome, w: Outcome) -> Seq<Seq<char>> {
    seq![mailchimp_line_spec(m), invite_line_spec(i), welcome_line_spec(w)]
}

/// Whether a status line reports a failure: every line opens with either
/// the success mark or the failure mark.
pub open spec fn is_failure_line(line: Seq<char>) -> bool {
    line.len() > 0 && line.first() == '🛑'
}

/// The status report always holds exactly three lines, in the fixed order
/// enrollment, invitation, notification, and a line reports a failure
/// exactly when its operation failed. In particular, with enrollment failed
/// and both invitation and notification delivered, the report holds exactly
/// one failure line and two success lines.
pub proof fn lemma_report_reflects_outcomes(m: Outcome, i: Outcome, w: Outcome)
    ensures
        report_lines(m, i, w).len() == 3,
        report_lines(m, i, w)[0] == mailchimp_line_spec(m),
        report_lines(m, i, w)[1] == invite_line_spec(i),
        report_lines(m, i, w)[2] == welcome_line_spec(w),
        is_failure_line(report_lines(m, i, w)[0]) <==> m is Failure,
        is_failure_line(report_lines(m, i, w)[1]) <==> i is Failure,
        is_failure_line(report_lines(m, i, w)[2]) <==> w is Failure,
{
    reveal_strlit("✅ Success adding user to the mailing list!");
    reveal_strlit("🛑 Could not add user to the mailing list.");
    reveal_strlit("✅ Success inviting user to Slack!");
    reveal_strlit("🛑 I could not invite the user to Slack.");
    reveal_strlit("✅ Success notifying the welcome team!");
    reveal_strlit("🛑 Could not notify the welcome team.");
}

/// The notification message sent to the internal channel: the submitted
/// contact fields, then the status lines of the two earlier operations.
pub open spec fn welcome_text_spec(
    f3_name: Seq<char>,
    hospital_name: Seq<char>,
    email: Seq<char>,
    cell: Seq<char>,
    slack_invite_status: Seq<char>,
    mailchimp_status: Seq<char>,
) -> Seq<char> {
    "Hi welcome team! A new FNG just posted.  Their contact info is:\nF3 Name: "@ + f3_name
        + "\nHospital Name: "@ + hospital_name + "\nEmail Address: "@ + email + "\nCell Phone: "@
        + cell + "\n\nHere are the results of inviting them to slack and adding them to Mailchimp:\n"@
        + slack_invite_status + "\n"@ + mailchimp_status
}

/// Compose the internal notification message from the submitted fields and
/// the status lines of enrollment and invitation.
pub fn welcome_text(
    fields: &FieldValues,
    slack_invite_status: &str,
    mailchimp_status: &str,
) -> (r: String)
    ensures
        r@ == welcome_text_spec(
            fields.f3_name@,
            fields.hospital_name@,
            fields.email@,
            fields.cell@,
            slack_invite_status@,
            mailchimp_status@,
        ),
{
    let mut s = "Hi welcome team! A new FNG just posted.  Their contact info is:\nF3 Name: "
        .to_owned();
    s.append(fields.f3_name.as_str());
    s.append("\nHospital Name: ");
    s.append(fields.hospital_name.as_str());
    s.append("\nEmail Address: ");
    s.append(fields.email.as_str());
    s.append("\nCell Phone: ");
    s.append(fields.cell.as_str());
    s.append("\n\nHere are the results of inviting them to slack and adding them to Mailchimp:\n");
    s.append(slack_invite_status);
    s.append("\n");
    s.append(mailchimp_status);
    s
}

/// Whether `needle` occurs contiguously somewhere in `hay`.
pub open spec fn contains_seq(hay: Seq<char>, needle: Seq<char>) -> bool {
    exists|k: int|
        0 <= k && k + needle.len() <= hay.len() && #[trigger] hay.subrange(k, k + needle.len())
            == needle
}

proof fn lemma_concat_contains(pre: Seq<char>, mid: Seq<char>, suf: Seq<char>)
    ensures
        contains_seq(pre + mid + suf, mid),
{
    let hay = pre + mid + suf;
    let k = pre.len() as int;
    assert(hay.subrange(k, k + mid.len()) =~= mid);
}

/// The internal notification always reflects both prior outcomes: its
/// message body contains the invitation status line and the enrollment
/// status line, whatever the outcomes and field values were.
pub proof fn lemma_notification_reflects_outcomes(
    f3_name: Seq<char>,
    hospital_name: Seq<char>,
    email: Seq<char>,
    cell: Seq<char>,
    slack_invite_status: Seq<char>,
    mailchimp_status: Seq<char>,
)
    ensures
        contains_seq(
            welcome_text_spec(
                f3_name,
                hospital_name,
                email,
                cell,
                slack_invite_status,
                mailchimp_status,
            ),
            slack_invite_status,
        ),
        contains_seq(
            welcome_text_spec(
                f3_name,
                hospital_name,
                email,
                cell,
                slack_invite_status,
                mailchimp_status,
            ),
            mailchimp_status,
        ),
{
    let text = welcome_text_spec(
        f3_name,
        hospital_name,
        email,
        cell,
        slack_invite_status,
        mailchimp_status,
    );
    let pre_invite = "Hi welcome team! A new FNG just posted.  Their contact info is:\nF3 Name: "@
        + f3_name + "\nHospital Name: "@ + hospital_name + "\nEmail Address: "@ + email
        + "\nCell Phone: "@ + cell
        + "\n\nHere are the results of inviting them to slack and adding them to Mailchimp:\n"@;
    let suf_invite = "\n"@ + mailchimp_status;
    assert(text =~= pre_invite + slack_invite_status + suf_invite);
    lemma_concat_contains(pre_invite, slack_invite_status, suf_invite);
    let pre_mail = pre_invite + slack_invite_status + "\n"@;
    let suf_mail = Seq::<char>::empty();
    assert(text =~= pre_mail + mailchimp_status + suf_mail);
    lemma_concat_contains(pre_mail, mailchimp_status, suf_mail);
}

/// The response that closes the submitted dialog: an update of the shown
/// modal whose text is the three-line status report.
pub open spec fn submission_response_spec(m: Outcome, i: Outcome, w: Outcome) -> Seq<char> {
    "\n{\n  \"response_action\": \"update\",\n  \"view\": {\n    \"type\": \"modal\",\n    \"title\": {\n      \"type\": \"plain_text\",\n      \"text\": \"Status\"\n    },\n\n    \"blocks\": [\n               {\n                 \"type\": \"section\",\n                 \"text\": {\n                           \"type\": \"mrkdwn\",\n                           \"text\": \"Thanks for using FNG Bot!\\n*Status Report*:\\n\\n✅ I am a robot 🤖!\\n\\n "@
        + mailchimp_line_spec(m) + "\\n\\n"@ + invite_line_spec(i) + "\\n\\n"@ + welcome_line_spec(
        w,
    ) + "\\n\\n\"\n                 }\n               }\n    ]\n  }\n}"@
}

/// Build the modal-update response that reports all three outcomes.
pub fn submission_response(m: Outcome, i: Outcome, w: Outcome) -> (r: String)
    ensures
        r@ == submission_response_spec(m, i, w),
{
    let mut s =
        "\n{\n  \"response_action\": \"update\",\n  \"view\": {\n    \"type\": \"modal\",\n    \"title\": {\n      \"type\": \"plain_text\",\n      \"text\": \"Status\"\n    },\n\n    \"blocks\": [\n               {\n                 \"type\": \"section\",\n                 \"text\": {\n                           \"type\": \"mrkdwn\",\n                           \"text\": \"Thanks for using FNG Bot!\\n*Status Report*:\\n\\n✅ I am a robot 🤖!\\n\\n "
        .to_owned();
    let m_line = mailchimp_line(m);
    let i_line = invite_line(i);
    let w_line = welcome_line(w);
    s.append(m_line.as_str());
    s.append("\\n\\n");
    s.append(i_line.as_str());
    s.append("\\n\\n");
    s.append(w_line.as_str());
    s.append("\\n\\n\"\n                 }\n               }\n    ]\n  }\n}");
    s
}

/// The payload of the open-dialog call: the trigger identifier, then the
/// fixed modal definition with its four labelled inputs.
pub open spec fn display_dialog_payload_spec(trigger_id: Seq<char>) -> Seq<char> {
    "{\n             \"trigger_id\": \""@ + trigger_id
        + "\",\n             \"view\": {\n               \"title\": {\n                 \"type\": \"plain_text\",\n                 \"text\": \"FNG Bot\",\n                 \"emoji\": true\n               },\n               \"submit\": {\n                 \"type\": \"plain_text\",\n                 \"text\": \"Invite!\",\n                 \"emoji\": true\n               },\n               \"type\": \"modal\",\n               \"blocks\": [\n                 {\n                   \"type\": \"input\",\n                   \"element\": {\n                     \"type\": \"plain_text_input\"\n                   },\n                   \"label\": {\n                     \"type\": \"plain_text\",\n                             \"text\": \"F3 Name\",\n                             \"emoji\": false\n                   }\n                 },\n                 {\n                   \"type\": \"input\",\n                   \"element\": {\n                     \"type\": \"plain_text_input\"\n                   },\n                   \"label\": {\n                     \"type\": \"plain_text\",\n                     \"text\": \"Hospital Name\",\n                     \"emoji\": false\n                   }\n                 },\n                 {\n                   \"type\": \"input\",\n                   \"element\": {\n                     \"type\": \"email_text_input\"\n                   },\n                   \"label\": {\n                     \"type\": \"plain_text\",\n                     \"text\": \"Email Address\",\n                     \"emoji\": false\n                   }\n                 },\n                 {\n                   \"type\": \"input\",\n                   \"element\": {\n                     \"type\": \"number_input\",\n                     \"is_decimal_allowed\": false,\n                     \"action_id\": \"number_input-action\"\n                   },\n                   \"label\": {\n                     \"type\": \"plain_text\",\n                     \"text\": \"Cell Phone\",\n                     \"emoji\": false\n                   }\n                 }\n               ]\n             }\n           }"@
}

/// Build the open-dialog payload around a trigger identifier.
pub fn display_dialog_payload(trigger_id: &str) -> (r: String)
    ensures
        r@ == display_dialog_payload_spec(trigger_id@),
{
    let mut s = "{\n             \"trigger_id\": \"".to_owned();
    s.append(trigger_id);
    s.append(
        "\",\n             \"view\": {\n               \"title\": {\n                 \"type\": \"plain_text\",\n                 \"text\": \"FNG Bot\",\n                 \"emoji\": true\n               },\n               \"submit\": {\n                 \"type\": \"plain_text\",\n                 \"text\": \"Invite!\",\n                 \"emoji\": true\n               },\n               \"type\": \"modal\",\n               \"blocks\": [\n                 {\n                   \"type\": \"input\",\n                   \"element\": {\n                     \"type\": \"plain_text_input\"\n                   },\n                   \"label\": {\n                     \"type\": \"plain_text\",\n                             \"text\": \"F3 Name\",\n                             \"emoji\": false\n                   }\n                 },\n                 {\n                   \"type\": \"input\",\n                   \"element\": {\n                     \"type\": \"plain_text_input\"\n                   },\n                   \"label\": {\n                     \"type\": \"plain_text\",\n                     \"text\": \"Hospital Name\",\n                     \"emoji\": false\n                   }\n                 },\n                 {\n                   \"type\": \"input\",\n                   \"element\": {\n                     \"type\": \"email_text_input\"\n                   },\n                   \"label\": {\n                     \"type\": \"plain_text\",\n                     \"text\": \"Email Address\",\n                     \"emoji\": false\n                   }\n                 },\n                 {\n                   \"type\": \"input\",\n                   \"element\": {\n                     \"type\": \"number_input\",\n                     \"is_decimal_allowed\": false,\n                     \"action_id\": \"number_input-action\"\n                   },\n                   \"label\": {\n                     \"type\": \"plain_text\",\n                     \"text\": \"Cell Phone\",\n                     \"emoji\": false\n                   }\n                 }\n               ]\n             }\n           }",
    );
    s
}

/// The mailing-list endpoint URL for adding members to the configured list.
pub open spec fn mailchimp_url_spec(endpoint: Seq<char>, list_id: Seq<char>) -> Seq<char> {
    "https://"@ + endpoint + "/3.0/lists/"@ + list_id + "?skip_merge_validation=true"@
}

/// Build the mailing-list endpoint URL.
pub fn mailchimp_url(endpoint: &str, list_id: &str) -> (r: String)
    ensures
        r@ == mailchimp_url_spec(endpoint@, list_id@),
{
    let mut s = "https://".to_owned();
    s.append(endpoint);
    s.append("/3.0/lists/");
    s.append(list_id);
    s.append("?skip_merge_validation=true");
    s
}

/// The enrollment request body: one member to subscribe, with the full
/// name, phone and short name as merge fields.
pub open spec fn mailchimp_body_spec(
    f3_name: Seq<char>,
    hospital_name: Seq<char>,
    email: Seq<char>,
    cell: Seq<char>,
) -> Seq<char> {
    "{\"members\": [{\"email_address\": \""@ + email
        + "\",\n                                 \"status\": \"subscribed\",\n                                 \"email_type\": \"html\",\n                                 \"merge_fields\": {\"FULLNAME\": \""@
        + hospital_name + "\",\n                                                  \"PHONE\": \""@
        + cell + "\",\n                                                  \"F3NAME\": \""@ + f3_name
        + "\"\n                                                 }\n                               }],\n                    \"sync_tags\": false,\n                    \"update_existing\": false\n                   }"@
}

/// Build the enrollment request body from the submitted fields.
pub fn mailchimp_body(fields: &FieldValues) -> (r: String)
    ensures
        r@ == mailchimp_body_spec(
            fields.f3_name@,
            fields.hospital_name@,
            fields.email@,
            fields.cell@,
        ),
{
    let mut s = "{\"members\": [{\"email_address\": \"".to_owned();
    s.append(fields.email.as_str());
    s.append(
        "\",\n                                 \"status\": \"subscribed\",\n                                 \"email_type\": \"html\",\n                                 \"merge_fields\": {\"FULLNAME\": \"",
    );
    s.append(fields.hospital_name.as_str());
    s.append("\",\n                                                  \"PHONE\": \"");
    s.append(fields.cell.as_str());
    s.append("\",\n                                                  \"F3NAME\": \"");
    s.append(fields.f3_name.as_str());
    s.append(
        "\"\n                                                 }\n                               }],\n                    \"sync_tags\": false,\n                    \"update_existing\": false\n                   }",
    );
    s
}

/// A mailbox header: display name, space, then the address in angle
/// brackets.
pub open spec fn mailbox_spec(name: Seq<char>, address: Seq<char>) -> Seq<char> {
    name + " <"@ + address + ">"@
}

/// Build a mailbox header from a display name and an address. The sender
/// and reply-to mailboxes carry the region name; the recipient mailbox
/// carries the submitted organization name.
pub fn mailbox(name: &str, address: &str) -> (r: String)
    ensures
        r@ == mailbox_spec(name@, address@),
{
    let mut s = name.to_owned();
    s.append(" <");
    s.append(address);
    s.append(">");
    s
}

/// The invitation mail's subject line.
pub open spec fn invite_subject_spec(region: Seq<char>) -> Seq<char> {
    "Join "@ + region + " on Slack"@
}

/// Build the invitation mail's subject line.
pub fn invite_subject(region: &str) -> (r: String)
    ensures
        r@ == invite_subject_spec(region@),
{
    let mut s = "Join ".to_owned();
    s.append(region);
    s.append(" on Slack");
    s
}

/// The invitation mail's HTML body: a greeting by short name and the
/// configured invite link.
pub open spec fn invite_body_spec(f3_name: Seq<char>, region: Seq<char>, link: Seq<char>) -> Seq<
    char,
> {
    "Hi "@ + f3_name + "! Please join "@ + region + " on Slack by clicking this <a href=\""@ + link
        + "\">link</a>."@
}

/// Build the invitation mail's HTML body.
pub fn invite_body(f3_name: &str, region: &str, link: &str) -> (r: String)
    ensures
        r@ == invite_body_spec(f3_name@, region@, link@),
{
    let mut s = "Hi ".to_owned();
    s.append(f3_name);
    s.append("! Please join ");
    s.append(region);
    s.append(" on Slack by clicking this <a href=\"");
    s.append(link);
    s.append("\">link</a>.");
    s
}

/// The authorization header value for a bearer-token call to the chat
/// platform's API.
pub open spec fn bearer_token_spec(key: Seq<char>) -> Seq<char> {
    "Bearer "@ + key
}

/// Build the authorization header value for a bearer-token call.
pub fn bearer_token(key: &str) -> (r: String)
    ensures
        r@ == bearer_token_spec(key@),
{
    let mut s = "Bearer ".to_owned();
    s.append(key);
    s
}

/// The internal-notification request body: the fixed channel and the
/// message text.
pub open spec fn welcome_body_spec(channel: Seq<char>, text: Seq<char>) -> Seq<char> {
    "{\n                \"channel\": \""@ + channel + "\",\n                \"text\": \""@ + text
        + "\"\n               }"@
}

/// Build the internal-notification request body.
pub fn welcome_body(channel: &str, text: &str) -> (r: String)
    ensures
        r@ == welcome_body_spec(channel@, text@),
{
    let mut s = "{\n                \"channel\": \"".to_owned();
    s.append(channel);
    s.append("\",\n                \"text\": \"");
    s.append(text);
    s.append("\"\n               }");
    s
}

} // verus!
