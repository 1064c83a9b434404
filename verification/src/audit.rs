//! The action audit: the records kept for each safe action, which of them
//! are trusted when the audit is read back, and the identifiers they carry.

use vstd::prelude::*;
use crate::core_types::{
    is_hyphenated_uuid, lemma_uuid_text_shape, random_uuid_bytes, uuid_hyphenated, uuid_text,
};
use crate::text::{concat_str, is_blank, is_blank_spec, str_eq};

verus! {

#[derive(Debug, Clone, PartialEq, Eq)]
pub struct ActionAuditEntry {
    pub id: String,
    pub timestamp: u64,
    pub action: String,
    pub stage: String,
    pub confirmed: bool,
    pub status: String,
    pub message: String,
    pub reversible: bool,
    pub privilege: String,
    pub verification_status: String,
    pub verification_message: String,
    pub outcome_status: String,
    pub outcome_message: String,
    pub outcome_action: String,
}

#[derive(Debug, Clone, Copy, PartialEq, Eq, Structural)]
pub enum AlertActionOutcomeStatus {
    Verified,
    Rejected,
}

/// The outcome of an action after execution and verification.
#[derive(Debug, Clone, PartialEq, Eq)]
pub struct AlertActionOutcome {
    pub action_id: String,
    pub status: AlertActionOutcomeStatus,
    pub message: String,
}

/// The status recorded for entries written before verification existed.
pub fn default_verification_status() -> (status: String)
    ensures
        status@ == "legacy"@,
{
    "legacy".to_owned()
}

/// The outcome status recorded for entries written before outcomes existed.
pub fn default_outcome_status() -> (status: String)
    ensures
        status@ == "legacy"@,
{
    "legacy".to_owned()
}

pub open spec fn outcome_label_spec(status: AlertActionOutcomeStatus) -> Seq<char> {
    match status {
        AlertActionOutcomeStatus::Verified => "verified"@,
        AlertActionOutcomeStatus::Rejected => "rejected"@,
    }
}

/// The stable label stored for an outcome status.
pub fn outcome_status_label(status: &AlertActionOutcomeStatus) -> (label: &'static str)
    ensures
        label@ == outcome_label_spec(*status),
{
    match status {
        AlertActionOutcomeStatus::Verified => "verified",
        AlertActionOutcomeStatus::Rejected => "rejected",
    }
}

pub open spec fn legacy() -> Seq<char> {
    "legacy"@
}

pub open spec fn valid_outcome_status(status: Seq<char>) -> bool {
    status == "legacy"@ || status == "verified"@ || status == "rejected"@
}

pub fn is_valid_outcome_status(status: &str) -> (valid: bool)
    ensures
        valid == valid_outcome_status(status@),
{
    str_eq(status, "legacy") || str_eq(status, "verified") || str_eq(status, "rejected")
}

pub open spec fn valid_verification_status(status: Seq<char>) -> bool {
    status == "legacy"@ || status == "verified"@
}

pub fn is_valid_verification_status(status: &str) -> (valid: bool)
    ensures
        valid == valid_verification_status(status@),
{
    str_eq(status, "legacy") || str_eq(status, "verified")
}

pub open spec fn valid_verification_outcome_status(
    verification_status: Seq<char>,
    outcome_status: Seq<char>,
) -> bool {
    verification_status == "verified"@ && outcome_status == "verified"@
}

pub fn is_valid_verification_outcome_status(verification_status: &str, outcome_status: &str) -> (valid:
    bool)
    ensures
        valid == valid_verification_outcome_status(verification_status@, outcome_status@),
{
    str_eq(verification_status, "verified") && str_eq(outcome_status, "verified")
}

pub open spec fn valid_stage_verification_status(stage: Seq<char>, verification_status: Seq<char>) -> bool {
    stage == "verified"@ && verification_status == "verified"@
}

pub fn is_valid_stage_verification_status(stage: &str, verification_status: &str) -> (valid: bool)
    ensures
        valid == valid_stage_verification_status(stage@, verification_status@),
{
    str_eq(stage, "verified") && str_eq(verification_status, "verified")
}

pub open spec fn valid_stage_outcome_status(stage: Seq<char>, outcome_status: Seq<char>) -> bool {
    stage == "verified"@ && outcome_status == "verified"@
}

pub fn is_valid_stage_outcome_status(stage: &str, outcome_status: &str) -> (valid: bool)
    ensures
        valid == valid_stage_outcome_status(stage@, outcome_status@),
{
    str_eq(stage, "verified") && str_eq(outcome_status, "verified")
}

pub open spec fn valid_stage(stage: Seq<char>) -> bool {
    stage == "verified"@ || stage == "failed"@
}

pub fn is_valid_stage(stage: &str) -> (valid: bool)
    ensures
        valid == valid_stage(stage@),
{
    str_eq(stage, "verified") || str_eq(stage, "failed")
}

pub open spec fn valid_status(status: Seq<char>) -> bool {
    status == "success"@ || status == "completed"@ || status == "failed"@
}

pub fn is_valid_status(status: &str) -> (valid: bool)
    ensures
        valid == valid_status(status@),
{
    str_eq(status, "success") || str_eq(status, "completed") || str_eq(status, "failed")
}

/// A verified stage finished with success or completion; a failed stage failed.
pub open spec fn valid_stage_status(stage: Seq<char>, status: Seq<char>) -> bool {
    ||| stage == "verified"@ && (status == "success"@ || status == "completed"@)
    ||| stage == "failed"@ && status == "failed"@
}

pub fn is_valid_stage_status(stage: &str, status: &str) -> (valid: bool)
    ensures
        valid == valid_stage_status(stage@, status@),
{
    (str_eq(stage, "verified") && (str_eq(status, "success") || str_eq(status, "completed")))
        || (str_eq(stage, "failed") && str_eq(status, "failed"))
}

/// The actions in the safe-action allowlist.
pub open spec fn valid_action(action: Seq<char>) -> bool {
    ||| action == "refresh_health"@
    ||| action == "storage_diagnostic"@
    ||| action == "process_diagnostic"@
    ||| action == "network_diagnostic"@
    ||| action == "service_diagnostic"@
}

pub fn is_valid_action(action: &str) -> (valid: bool)
    ensures
        valid == valid_action(action@),
{
    str_eq(action, "refresh_health") || str_eq(action, "storage_diagnostic") || str_eq(
        action,
        "process_diagnostic",
    ) || str_eq(action, "network_diagnostic") || str_eq(action, "service_diagnostic")
}

pub open spec fn valid_privilege(privilege: Seq<char>) -> bool {
    privilege == "none"@ || privilege == "None"@ || privilege == "Unknown"@
}

pub fn is_valid_privilege(privilege: &str) -> (valid: bool)
    ensures
        valid == valid_privilege(privilege@),
{
    str_eq(privilege, "none") || str_eq(privilege, "None") || str_eq(privilege, "Unknown")
}

/// An audit record that can be trusted when the audit is read back. Records
/// written before verification existed (`legacy` verification status) are
/// held only to the original fields; newer records must also be consistent in
/// stage, status, verification and outcome.
pub open spec fn entry_valid(e: ActionAuditEntry) -> bool {
    let vs = e.verification_status@;
    let os = e.outcome_status@;
    &&& e.timestamp > 0
    &&& !is_blank_spec(e.id@)
    &&& !is_blank_spec(e.action@)
    &&& (vs == legacy() || valid_action(e.action@))
    &&& (vs == legacy() || valid_stage(e.stage@))
    &&& (vs == legacy() || valid_stage_status(e.stage@, e.status@))
    &&& (vs == legacy() || e.confirmed)
    &&& valid_status(e.status@)
    &&& !is_blank_spec(e.message@)
    &&& valid_privilege(e.privilege@)
    &&& valid_verification_status(vs)
    &&& (vs == legacy() || valid_stage_verification_status(e.stage@, vs))
    &&& (vs == legacy() || !is_blank_spec(e.verification_message@))
    &&& valid_outcome_status(os)
    &&& (vs == legacy() || os == legacy() || valid_stage_outcome_status(e.stage@, os))
    &&& (vs == legacy() || os == legacy() || valid_verification_outcome_status(vs, os))
    &&& (os == legacy() || !is_blank_spec(e.outcome_message@))
    &&& (os == legacy() || (!is_blank_spec(e.outcome_action@) && e.action@ == e.outcome_action@))
}

/// Whether an audit record can be trusted when the audit is read back.
pub fn audit_entry_is_valid(e: &ActionAuditEntry) -> (valid: bool)
    ensures
        valid == entry_valid(*e),
{
    let vs = e.verification_status.as_str();
    let os = e.outcome_status.as_str();
    let vs_legacy = str_eq(vs, "legacy");
    let os_legacy = str_eq(os, "legacy");
    e.timestamp > 0 && !is_blank(e.id.as_str()) && !is_blank(e.action.as_str()) && (vs_legacy
        || is_valid_action(e.action.as_str())) && (vs_legacy || is_valid_stage(e.stage.as_str()))
        && (vs_legacy || is_valid_stage_status(e.stage.as_str(), e.status.as_str())) && (vs_legacy
        || e.confirmed) && is_valid_status(e.status.as_str()) && !is_blank(e.message.as_str())
        && is_valid_privilege(e.privilege.as_str()) && is_valid_verification_status(vs) && (
    vs_legacy || is_valid_stage_verification_status(e.stage.as_str(), vs)) && (vs_legacy
        || !is_blank(e.verification_message.as_str())) && is_valid_outcome_status(os) && (vs_legacy
        || os_legacy || is_valid_stage_outcome_status(e.stage.as_str(), os)) && (vs_legacy
        || os_legacy || is_valid_verification_outcome_status(vs, os)) && (os_legacy || !is_blank(
        e.outcome_message.as_str(),
    )) && (os_legacy || (!is_blank(e.outcome_action.as_str()) && e.action == e.outcome_action))
}

pub open spec fn ids_of(entries: Seq<ActionAuditEntry>) -> Seq<Seq<char>> {
    entries.map_values(|e: ActionAuditEntry| e.id@)
}

/// The records kept from the records read back, in order: a line that could
/// not be read (`None`) or an invalid record is skipped, as is a record whose
/// identifier was already kept.
pub open spec fn selected_entries(candidates: Seq<Option<ActionAuditEntry>>) -> Seq<
    ActionAuditEntry,
>
    decreases candidates.len(),
{
    if candidates.len() == 0 {
        seq![]
    } else {
        let kept = selected_entries(candidates.drop_last());
        match candidates.last() {
            Some(e) => if entry_valid(e) && !ids_of(kept).contains(e.id@) {
                kept.push(e)
            } else {
                kept
            },
            None => kept,
        }
    }
}

fn clone_entry(e: &ActionAuditEntry) -> (c: ActionAuditEntry)
    ensures
        c == *e,
{
    ActionAuditEntry {
        id: e.id.clone(),
        timestamp: e.timestamp,
        action: e.action.clone(),
        stage: e.stage.clone(),
        confirmed: e.confirmed,
        status: e.status.clone(),
        message: e.message.clone(),
        reversible: e.reversible,
        privilege: e.privilege.clone(),
        verification_status: e.verification_status.clone(),
        verification_message: e.verification_message.clone(),
        outcome_status: e.outcome_status.clone(),
        outcome_message: e.outcome_message.clone(),
        outcome_action: e.outcome_action.clone(),
    }
}

fn contains_id(entries: &Vec<ActionAuditEntry>, id: &String) -> (found: bool)
    ensures
        found == ids_of(entries@).contains(id@),
{
    let mut i: usize = 0;
    while i < entries.len()
        invariant
            i <= entries@.len(),
            forall|j: int| 0 <= j < i ==> (#[trigger] entries@[j]).id@ != id@,
        decreases entries@.len() - i,
    {
        if entries[i].id == *id {
            assert(ids_of(entries@)[i as int] == id@);
            return true;
        }
        i = i + 1;
    }
    assert(!ids_of(entries@).contains(id@)) by {
        if ids_of(entries@).contains(id@) {
            let k = choose|k: int| 0 <= k < ids_of(entries@).len() && ids_of(entries@)[k] == id@;
            assert(entries@[k].id@ == id@);
        }
    }
    false
}

/// Keep the trustworthy audit records, in order, each identifier once.
pub fn select_audit_entries(candidates: Vec<Option<ActionAuditEntry>>) -> (entries: Vec<
    ActionAuditEntry,
>)
    ensures
        entries@ == selected_entries(candidates@),
{
    let mut entries: Vec<ActionAuditEntry> = Vec::new();
    let mut i: usize = 0;
    while i < candidates.len()
        invariant
            i <= candidates@.len(),
            entries@ == selected_entries(candidates@.take(i as int)),
        decreases candidates@.len() - i,
    {
        assert(candidates@.take(i + 1).drop_last() =~= candidates@.take(i as int));
        assert(candidates@.take(i + 1).last() == candidates@[i as int]);
        match &candidates[i] {
            Some(e) => {
                if audit_entry_is_valid(e) && !contains_id(&entries, &e.id) {
                    entries.push(clone_entry(e));
                }
            },
            None => {},
        }
        i = i + 1;
    }
    assert(candidates@.take(candidates@.len() as int) =~= candidates@);
    entries
}

proof fn lemma_selected_prefix(candidates: Seq<Option<ActionAuditEntry>>, x: ActionAuditEntry)
    requires
        candidates.len() > 0,
        selected_entries(candidates.drop_last()).contains(x),
    ensures
        selected_entries(candidates).contains(x),
{
    let kept = selected_entries(candidates.drop_last());
    let k = choose|k: int| 0 <= k < kept.len() && kept[k] == x;
    match candidates.last() {
        Some(e) => {
            if entry_valid(e) && !ids_of(kept).contains(e.id@) {
                assert(kept.push(e)[k] == x);
            }
        },
        None => {},
    }
}

proof fn lemma_selected_come_from_valid_candidates(
    candidates: Seq<Option<ActionAuditEntry>>,
    i: int,
)
    requires
        0 <= i < selected_entries(candidates).len(),
    ensures
        entry_valid(selected_entries(candidates)[i]),
        exists|j: int|
            0 <= j < candidates.len() && candidates[j] == Some(
                #[trigger] selected_entries(candidates)[i],
            ),
    decreases candidates.len(),
{
    let kept = selected_entries(candidates.drop_last());
    if i < kept.len() {
        lemma_selected_come_from_valid_candidates(candidates.drop_last(), i);
        let j = choose|j: int|
            0 <= j < candidates.drop_last().len() && candidates.drop_last()[j] == Some(
                #[trigger] kept[i],
            );
        match candidates.last() {
            Some(e) => {
                if entry_valid(e) && !ids_of(kept).contains(e.id@) {
                    assert(kept.push(e)[i] == kept[i]);
                }
            },
            None => {},
        }
        assert(candidates[j] == candidates.drop_last()[j]);
    } else {
        assert(candidates[candidates.len() - 1] == candidates.last());
    }
}

/// Every record kept when the audit is read back is valid, each identifier
/// appears at most once, and every kept record was one of the records read.
pub proof fn lemma_selected_entries_are_valid_and_unique(candidates: Seq<Option<ActionAuditEntry>>)
    ensures
        forall|i: int|
            0 <= i < selected_entries(candidates).len() ==> entry_valid(
                #[trigger] selected_entries(candidates)[i],
            ),
        forall|i: int, j: int|
            0 <= i < j < selected_entries(candidates).len() ==> (#[trigger] selected_entries(
                candidates,
            )[i]).id@ != (#[trigger] selected_entries(candidates)[j]).id@,
        forall|i: int|
            0 <= i < selected_entries(candidates).len() ==> candidates.contains(
                Some(#[trigger] selected_entries(candidates)[i]),
            ),
    decreases candidates.len(),
{
    assert forall|i: int| 0 <= i < selected_entries(candidates).len() implies entry_valid(
        #[trigger] selected_entries(candidates)[i],
    ) && candidates.contains(Some(selected_entries(candidates)[i])) by {
        lemma_selected_come_from_valid_candidates(candidates, i);
    }
    if candidates.len() > 0 {
        lemma_selected_entries_are_valid_and_unique(candidates.drop_last());
        let kept = selected_entries(candidates.drop_last());
        match candidates.last() {
            Some(e) => {
                if entry_valid(e) && !ids_of(kept).contains(e.id@) {
                    let all = kept.push(e);
                    assert forall|i: int, j: int| 0 <= i < j < all.len() implies (#[trigger] all[i]).id@
                        != (#[trigger] all[j]).id@ by {
                        if j == all.len() - 1 {
                            assert(ids_of(kept)[i] == kept[i].id@);
                        } else {
                            assert(all[i] == kept[i] && all[j] == kept[j]);
                        }
                    }
                }
            },
            None => {},
        }
    }
}

/// Invalid, unreadable or duplicate records never hide valid history: a
/// valid record is kept whenever no earlier valid record carries its identifier.
pub proof fn lemma_valid_history_is_never_hidden(
    candidates: Seq<Option<ActionAuditEntry>>,
    k: int,
    e: ActionAuditEntry,
)
    requires
        0 <= k < candidates.len(),
        candidates[k] == Some(e),
        entry_valid(e),
        forall|j: int|
            0 <= j < k ==> match #[trigger] candidates[j] {
                Some(other) => !(entry_valid(other) && other.id@ == e.id@),
                None => true,
            },
    ensures
        selected_entries(candidates).contains(e),
    decreases candidates.len(),
{
    let prefix = candidates.drop_last();
    if k < candidates.len() - 1 {
        assert forall|j: int| 0 <= j < k implies match #[trigger] prefix[j] {
            Some(other) => !(entry_valid(other) && other.id@ == e.id@),
            None => true,
        } by {
            assert(prefix[j] == candidates[j]);
        }
        lemma_valid_history_is_never_hidden(prefix, k, e);
        lemma_selected_prefix(candidates, e);
    } else {
        let kept = selected_entries(prefix);
        if ids_of(kept).contains(e.id@) {
            let i = choose|i: int| 0 <= i < ids_of(kept).len() && ids_of(kept)[i] == e.id@;
            lemma_selected_come_from_valid_candidates(prefix, i);
            let j = choose|j: int| 0 <= j < prefix.len() && prefix[j] == Some(#[trigger] kept[i]);
            assert(candidates[j] == prefix[j]);
        }
        assert(candidates.last() == candidates[k]);
        assert(kept.push(e)[kept.len() as int] == e);
    }
}

/// A fresh audit identifier: `action-` followed by a random version-4 UUID
/// in its hyphenated lower-case form.
pub fn audit_id() -> (id: String)
    ensures
        exists|bytes: Seq<u8>|
            bytes.len() == 16 && bytes[6] / 16 == 4 && bytes[8] / 64 == 2 && id@ == "action-"@
                + uuid_hyphenated(bytes),
        id@.len() == 43,
        id@.take(7) == "action-"@,
        is_hyphenated_uuid(id@.skip(7)),
{
    let bytes = random_uuid_bytes();
    let text = uuid_text(bytes);
    let id = concat_str("action-", text.as_str());
    proof {
        reveal_strlit("action-");
        lemma_uuid_text_shape(bytes@);
        assert(id@.take(7) =~= "action-"@);
        assert(id@.skip(7) =~= text@);
        assert(bytes@.len() == 16);
        assert(id@ == "action-"@ + uuid_hyphenated(bytes@));
    }
    id
}

/// The audit trail of safe actions. Where the records are stored is the
/// application's concern; this type builds and screens them.
#[derive(Debug, Clone, Copy, Default)]
pub struct ActionAudit;

/// The record kept for one action: its fields as given, the label of its
/// outcome status, and the outcome's message and action.
pub open spec fn describes_entry(
    entry: ActionAuditEntry,
    timestamp: u64,
    action: Seq<char>,
    stage: Seq<char>,
    confirmed: bool,
    status: Seq<char>,
    message: Seq<char>,
    reversible: bool,
    privilege: Seq<char>,
    verification_status: Seq<char>,
    verification_message: Seq<char>,
    outcome: AlertActionOutcome,
) -> bool {
    &&& entry.timestamp == timestamp
    &&& entry.action@ == action
    &&& entry.stage@ == stage
    &&& entry.confirmed == confirmed
    &&& entry.status@ == status
    &&& entry.message@ == message
    &&& entry.reversible == reversible
    &&& entry.privilege@ == privilege
    &&& entry.verification_status@ == verification_status
    &&& entry.verification_message@ == verification_message
    &&& entry.outcome_status@ == outcome_label_spec(outcome.status)
    &&& entry.outcome_message@ == outcome.message@
    &&& entry.outcome_action@ == outcome.action_id@
}

impl ActionAudit {
    /// The record for one action at time `timestamp`, under a fresh audit identifier.
    pub fn entry(
        &self,
        timestamp: u64,
        action: &str,
        stage: &str,
        confirmed: bool,
        status: &str,
        message: &str,
        reversible: bool,
        privilege: &str,
        verification_status: &str,
        verification_message: &str,
        outcome: &AlertActionOutcome,
    ) -> (entry: ActionAuditEntry)
        ensures
            describes_entry(
                entry,
                timestamp,
                action@,
                stage@,
                confirmed,
                status@,
                message@,
                reversible,
                privilege@,
                verification_status@,
                verification_message@,
                *outcome,
            ),
            entry.id@.len() == 43,
            entry.id@.take(7) == "action-"@,
            is_hyphenated_uuid(entry.id@.skip(7)),
    {
        ActionAuditEntry {
            id: audit_id(),
            timestamp,
            action: action.to_owned(),
            stage: stage.to_owned(),
            confirmed,
            status: status.to_owned(),
            message: message.to_owned(),
            reversible,
            privilege: privilege.to_owned(),
            verification_status: verification_status.to_owned(),
            verification_message: verification_message.to_owned(),
            outcome_status: outcome_status_label(&outcome.status).to_owned(),
            outcome_message: outcome.message.clone(),
            outcome_action: outcome.action_id.clone(),
        }
    }
}

} // verus!
