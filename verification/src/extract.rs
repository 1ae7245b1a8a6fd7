//! Recovering submitted field values from a view document.
//!
//! The document separates structure from values, so resolving a label takes
//! two phases: scan the block sequence in order for the first block whose
//! label equals the wanted one exactly, then look its block identifier and
//! action identifier up in the state map. A miss at any point yields absent.

use vstd::prelude::*;
use crate::event::{SlackBlock, SlackDoc, StateEntry, str_eq};

verus! {

/// Whether a block's label is present and equals `field` exactly.
pub open spec fn block_matches(b: SlackBlock, field: Seq<char>) -> bool {
    b.label is Some && b.label->0@ == field
}

/// The first block in order whose label equals `field`, if any.
pub open spec fn first_matching_block(blocks: Seq<SlackBlock>, field: Seq<char>) -> Option<
    SlackBlock,
>
    decreases blocks.len(),
{
    if blocks.len() == 0 {
        None
    } else if block_matches(blocks.first(), field) {
        Some(blocks.first())
    } else {
        first_matching_block(blocks.drop_first(), field)
    }
}

/// The value of the state-map leaf keyed by `block_id` then `action_id`,
/// if such a leaf exists.
pub open spec fn state_value(
    state: Seq<StateEntry>,
    block_id: Seq<char>,
    action_id: Seq<char>,
) -> Option<Seq<char>>
    decreases state.len(),
{
    if state.len() == 0 {
        None
    } else if state.first().block_id@ == block_id && state.first().action_id@ == action_id {
        Some(state.first().value@)
    } else {
        state_value(state.drop_first(), block_id, action_id)
    }
}

/// The two-phase lookup: the first block whose label matches must carry both
/// identifiers, and both must resolve in the state map; otherwise absent.
pub open spec fn extract_field_spec(doc: SlackDoc, field: Seq<char>) -> Option<Seq<char>> {
    match doc.view {
        None => None,
        Some(view) => match first_matching_block(view.blocks@, field) {
            None => None,
            Some(b) => if b.block_id is None || b.action_id is None {
                None
            } else {
                state_value(view.state@, b.block_id->0@, b.action_id->0@)
            },
        },
    }
}

proof fn lemma_first_matching_step(blocks: Seq<SlackBlock>, field: Seq<char>, i: int)
    requires
        0 <= i < blocks.len(),
        !block_matches(blocks[i], field),
    ensures
        first_matching_block(blocks.skip(i), field) == first_matching_block(
            blocks.skip(i + 1),
            field,
        ),
{
    assert(blocks.skip(i).drop_first() =~= blocks.skip(i + 1));
}

proof fn lemma_state_value_step(
    state: Seq<StateEntry>,
    block_id: Seq<char>,
    action_id: Seq<char>,
    i: int,
)
    requires
        0 <= i < state.len(),
        !(state[i].block_id@ == block_id && state[i].action_id@ == action_id),
    ensures
        state_value(state.skip(i), block_id, action_id) == state_value(
            state.skip(i + 1),
            block_id,
            action_id,
        ),
{
    assert(state.skip(i).drop_first() =~= state.skip(i + 1));
}

/// Phase two alone: walk the state map for the leaf under `block_id` then
/// `action_id`.
fn lookup_state(state: &Vec<StateEntry>, block_id: &str, action_id: &str) -> (r: Option<String>)
    ensures
        r.deep_view() == state_value(state@, block_id@, action_id@),
{
    let mut i: usize = 0;
    assert(state@.skip(0) =~= state@);
    while i < state.len()
        invariant
            i <= state@.len(),
            state_value(state@, block_id@, action_id@) == state_value(
                state@.skip(i as int),
                block_id@,
                action_id@,
            ),
        decreases state@.len() - i,
    {
        let entry = &state[i];
        if str_eq(entry.block_id.as_str(), block_id) && str_eq(entry.action_id.as_str(), action_id)
        {
            assert(state@.skip(i as int).first() == state@[i as int]);
            return Some(entry.value.clone());
        }
        proof {
            lemma_state_value_step(state@, block_id@, action_id@, i as int);
        }
        i = i + 1;
    }
    None
}

/// Resolve a human-readable field label to its submitted value: find the
/// first block labelled `field`, then read the leaf its identifiers key in
/// the state map.
pub fn get_slack_field(doc: &SlackDoc, field: &str) -> (r: Option<String>)
    ensures
        r.deep_view() == extract_field_spec(*doc, field@),
{
    let view = match &doc.view {
        Some(v) => v,
        None => { return None },
    };
    let mut i: usize = 0;
    assert(view.blocks@.skip(0) =~= view.blocks@);
    while i < view.blocks.len()
        invariant
            i <= view.blocks@.len(),
            doc.view == Some(*view),
            first_matching_block(view.blocks@, field@) == first_matching_block(
                view.blocks@.skip(i as int),
                field@,
            ),
        decreases view.blocks@.len() - i,
    {
        let b = &view.blocks[i];
        let matched = match &b.label {
            Some(label) => str_eq(label.as_str(), field),
            None => false,
        };
        if matched {
            assert(view.blocks@.skip(i as int).first() == view.blocks@[i as int]);
            assert(first_matching_block(view.blocks@, field@) == Some(view.blocks@[i as int]));
            let block_id = match &b.block_id {
                Some(id) => id,
                None => { return None },
            };
            let action_id = match &b.action_id {
                Some(id) => id,
                None => { return None },
            };
            return lookup_state(&view.state, block_id.as_str(), action_id.as_str());
        }
        proof {
            lemma_first_matching_step(view.blocks@, field@, i as int);
        }
        i = i + 1;
    }
    None
}

/// The four field values a submission must carry.
#[derive(Clone, Debug, PartialEq, Eq)]
pub struct FieldValues {
    pub f3_name: String,
    pub hospital_name: String,
    pub email: String,
    pub cell: String,
}

/// The first required field that could not be resolved, in the fixed
/// checking order: short name, organization, email, phone.
#[derive(Clone, Copy, Debug, PartialEq, Eq, Structural)]
pub enum MissingField {
    F3Name,
    HospitalName,
    EmailAddress,
    CellPhone,
}

/// The label under which each required field is looked up.
pub open spec fn field_label(m: MissingField) -> Seq<char> {
    match m {
        MissingField::F3Name => "F3 Name"@,
        MissingField::HospitalName => "Hospital Name"@,
        MissingField::EmailAddress => "Email Address"@,
        MissingField::CellPhone => "Cell Phone"@,
    }
}

/// Resolving all four required fields, failing closed on the first miss in
/// the fixed order.
pub open spec fn extract_all_spec(doc: SlackDoc) -> Result<
    (Seq<char>, Seq<char>, Seq<char>, Seq<char>),
    MissingField,
> {
    if extract_field_spec(doc, "F3 Name"@) is None {
        Err(MissingField::F3Name)
    } else if extract_field_spec(doc, "Hospital Name"@) is None {
        Err(MissingField::HospitalName)
    } else if extract_field_spec(doc, "Email Address"@) is None {
        Err(MissingField::EmailAddress)
    } else if extract_field_spec(doc, "Cell Phone"@) is None {
        Err(MissingField::CellPhone)
    } else {
        Ok(
            (
                extract_field_spec(doc, "F3 Name"@)->0,
                extract_field_spec(doc, "Hospital Name"@)->0,
                extract_field_spec(doc, "Email Address"@)->0,
                extract_field_spec(doc, "Cell Phone"@)->0,
            ),
        )
    }
}

/// Resolve the four required fields of a submission, in the fixed order.
/// Any single miss rejects the whole submission, naming the first field
/// that could not be resolved; no side effect may run in that case.
pub fn extract_all(doc: &SlackDoc) -> (r: Result<FieldValues, MissingField>)
    ensures
        match r {
            Ok(f) => extract_all_spec(*doc) == Ok::<_, MissingField>(
                (f.f3_name@, f.hospital_name@, f.email@, f.cell@),
            ),
            Err(e) => extract_all_spec(*doc) == Err::<
                (Seq<char>, Seq<char>, Seq<char>, Seq<char>),
                _,
            >(e),
        },
{
    let f3_name = match get_slack_field(doc, "F3 Name") {
        Some(v) => v,
        None => { return Err(MissingField::F3Name) },
    };
    let hospital_name = match get_slack_field(doc, "Hospital Name") {
        Some(v) => v,
        None => { return Err(MissingField::HospitalName) },
    };
    let email = match get_slack_field(doc, "Email Address") {
        Some(v) => v,
        None => { return Err(MissingField::EmailAddress) },
    };
    let cell = match get_slack_field(doc, "Cell Phone") {
        Some(v) => v,
        None => { return Err(MissingField::CellPhone) },
    };
    Ok(FieldValues { f3_name, hospital_name, email, cell })
}

/// The plaintext reason a submission with an unresolved field is answered
/// with.
pub open spec fn missing_field_reason_spec(m: MissingField) -> Seq<char> {
    match m {
        MissingField::F3Name => "F3 Name not specified or not in JSON document"@,
        MissingField::HospitalName => "Hospital name not specifid or not in JSON document"@,
        MissingField::EmailAddress => "Email Address not specified"@,
        MissingField::CellPhone => "Cell number not provided"@,
    }
}

/// The plaintext reason reported when a required field cannot be resolved.
pub fn missing_field_reason(m: MissingField) -> (r: String)
    ensures
        r@ == missing_field_reason_spec(m),
{
    match m {
        MissingField::F3Name => "F3 Name not specified or not in JSON document".to_owned(),
        MissingField::HospitalName => {
            "Hospital name not specifid or not in JSON document".to_owned()
        },
        MissingField::EmailAddress => "Email Address not specified".to_owned(),
        MissingField::CellPhone => "Cell number not provided".to_owned(),
    }
}

/// Field extraction reads nothing but the view document: two submissions
/// with the same view resolve every label to the same result, so
/// re-submitting an identical document extracts identical values.
pub proof fn lemma_extraction_stateless(doc1: SlackDoc, doc2: SlackDoc, field: Seq<char>)
    requires
        doc1.view == doc2.view,
    ensures
        extract_field_spec(doc1, field) == extract_field_spec(doc2, field),
        extract_all_spec(doc1) == extract_all_spec(doc2),
{
}

} // verus!
