//! Classes of data that leave the machine, and the saved decisions on them.

use crate::text::{
    beginnings_are_held, beginnings_begin_alike, decimal, decimal_text, ends_occur, occurs, pad,
    padded,
};
use vstd::prelude::*;
use vstd::string::*;

verus! {

/// What kind of data an outbound item is.
#[derive(Clone, Copy, PartialEq, Eq, Structural, Debug)]
pub enum OutboundDataClass {
    PromptText,
    XanaSummary,
    SelectedMessages,
    SelectedFileContents,
    SelectedArtifacts,
    WorkspaceMetadata,
}

impl OutboundDataClass {
    /// The name of a class.
    pub open spec fn name(self) -> Seq<char> {
        match self {
            OutboundDataClass::PromptText => "prompt_text"@,
            OutboundDataClass::XanaSummary => "xana_summary"@,
            OutboundDataClass::SelectedMessages => "selected_messages"@,
            OutboundDataClass::SelectedFileContents => "selected_file_contents"@,
            OutboundDataClass::SelectedArtifacts => "selected_artifacts"@,
            OutboundDataClass::WorkspaceMetadata => "workspace_metadata"@,
        }
    }

    /// The name of a class.
    pub fn as_str(self) -> (name: &'static str)
        ensures
            name@ == self.name(),
    {
        match self {
            OutboundDataClass::PromptText => "prompt_text",
            OutboundDataClass::XanaSummary => "xana_summary",
            OutboundDataClass::SelectedMessages => "selected_messages",
            OutboundDataClass::SelectedFileContents => "selected_file_contents",
            OutboundDataClass::SelectedArtifacts => "selected_artifacts",
            OutboundDataClass::WorkspaceMetadata => "workspace_metadata",
        }
    }
}

/// All classes, in their order.
pub open spec fn all_classes() -> Seq<OutboundDataClass> {
    seq![
        OutboundDataClass::PromptText,
        OutboundDataClass::XanaSummary,
        OutboundDataClass::SelectedMessages,
        OutboundDataClass::SelectedFileContents,
        OutboundDataClass::SelectedArtifacts,
        OutboundDataClass::WorkspaceMetadata,
    ]
}

/// All classes, in their order.
pub fn every_class() -> (classes: Vec<OutboundDataClass>)
    ensures
        classes@ == all_classes(),
{
    let mut classes: Vec<OutboundDataClass> = Vec::new();
    classes.push(OutboundDataClass::PromptText);
    classes.push(OutboundDataClass::XanaSummary);
    classes.push(OutboundDataClass::SelectedMessages);
    classes.push(OutboundDataClass::SelectedFileContents);
    classes.push(OutboundDataClass::SelectedArtifacts);
    classes.push(OutboundDataClass::WorkspaceMetadata);
    assert(classes@ =~= all_classes());
    classes
}

/// Whether a class is among others.
pub fn has_class(classes: &Vec<OutboundDataClass>, class: OutboundDataClass) -> (found: bool)
    ensures
        found == classes@.contains(class),
{
    let mut i: usize = 0;
    while i < classes.len()
        invariant
            i <= classes@.len(),
            forall|j: int| 0 <= j < i ==> classes@[j] != class,
        decreases classes@.len() - i,
    {
        if classes[i] == class {
            return true;
        }
        i += 1;
    }
    false
}

/// A copy of a list of classes.
pub fn copy_classes(classes: &Vec<OutboundDataClass>) -> (copy: Vec<OutboundDataClass>)
    ensures
        copy@ == classes@,
{
    let mut copy: Vec<OutboundDataClass> = Vec::new();
    let mut i: usize = 0;
    while i < classes.len()
        invariant
            i <= classes@.len(),
            copy@ == classes@.take(i as int),
        decreases classes@.len() - i,
    {
        copy.push(classes[i]);
        i += 1;
        assert(classes@.take(i as int) =~= classes@.take(i - 1).push(classes@[i - 1]));
    }
    assert(classes@.take(i as int) =~= classes@);
    copy
}

/// Who outbound data goes to.
#[derive(Debug, PartialEq, Eq)]
pub struct RecipientIdentity {
    pub kind: RecipientKind,
    pub connection: String,
    pub destination: String,
    pub identity_digest: String,
}

#[derive(Clone, Copy, PartialEq, Eq, Structural, Debug)]
pub enum RecipientKind {
    ExternalAgent,
    McpServer,
}

/// One piece of outbound data.
#[derive(Debug, PartialEq, Eq)]
pub struct OutboundItem {
    pub class: OutboundDataClass,
    pub label: String,
    pub reference: Option<String>,
    pub source: String,
    pub bytes: Vec<u8>,
}

/// A decision that was saved for one recipient and class.
#[derive(Debug, PartialEq, Eq)]
pub struct SavedDecision {
    pub allow: bool,
    pub class: OutboundDataClass,
    pub updated_unix_ms: u64,
    pub recipient_identity_digest: String,
}

pub const NO_DECISIONS: &'static str = "No saved outbound-data decisions.\n";

pub const DECISION_HEADER: &'static str = "DECISION  CLASS                   UPDATED_MS     RECIPIENT IDENTITY DIGEST\n";

pub const REVOKE_CONFIRMATION: &'static str = "refusing to revoke an outbound-data decision without --yes; review `xana outbound list` first";

/// The list of decisions after one more row.
pub open spec fn decision_row(output: Seq<char>, record: SavedDecision) -> Seq<char> {
    output + padded(
        if record.allow {
            "allow"@
        } else {
            "deny"@
        },
        9,
    ) + " "@ + padded(record.class.name(), 23) + " "@ + padded(
        decimal(record.updated_unix_ms as nat),
        14,
    ) + " "@ + record.recipient_identity_digest@ + "\n"@
}

/// The rows of a list of decisions.
pub open spec fn decision_rows(output: Seq<char>, records: Seq<SavedDecision>) -> Seq<char>
    decreases records.len(),
{
    if records.len() == 0 {
        output
    } else {
        decision_row(decision_rows(output, records.drop_last()), records.last())
    }
}

/// Lists the saved decisions.
pub fn list_decisions(records: &Vec<SavedDecision>, output: &mut String)
    ensures
        final(output)@ == if records@.len() == 0 {
            old(output)@ + NO_DECISIONS@
        } else {
            decision_rows(old(output)@ + DECISION_HEADER@, records@)
        },
{
    if records.len() == 0 {
        output.append(NO_DECISIONS);
        return ;
    }
    output.append(DECISION_HEADER);
    let ghost start = output@;
    let mut i: usize = 0;
    while i < records.len()
        invariant
            i <= records@.len(),
            output@ == decision_rows(start, records@.take(i as int)),
        decreases records@.len() - i,
    {
        assert(records@.take(i + 1).drop_last() =~= records@.take(i as int));
        let record = &records[i];
        output.append(
            pad(
                if record.allow {
                    "allow"
                } else {
                    "deny"
                },
                9,
            ).as_str(),
        );
        output.append(" ");
        output.append(pad(record.class.as_str(), 23).as_str());
        output.append(" ");
        output.append(pad(decimal_text(record.updated_unix_ms).as_str(), 14).as_str());
        output.append(" ");
        output.append(record.recipient_identity_digest.as_str());
        output.append("\n");
        i += 1;
    }
    assert(records@.take(i as int) =~= records@);
}

/// Whether a decision may be revoked: only where the owner said so.
pub fn admit_revocation(yes: bool) -> (admitted: Result<(), String>)
    ensures
        admitted is Ok == yes,
        admitted matches Err(text) ==> text@ == REVOKE_CONFIRMATION@,
{
    if yes {
        Ok(())
    } else {
        Err(REVOKE_CONFIRMATION.to_owned())
    }
}

/// Reports what revoking a decision came to.
pub fn write_revocation(
    class: OutboundDataClass,
    identity_digest: &str,
    revoked: bool,
    output: &mut String,
)
    ensures
        revoked ==> final(output)@ == old(output)@ + "Revoked "@ + class.name()
            + " for recipient identity "@ + identity_digest@ + ".\n"@,
        !revoked ==> final(output)@ == old(output)@ + "No saved "@ + class.name()
            + " decision exists for recipient identity "@ + identity_digest@ + ".\n"@,
{
    if revoked {
        output.append("Revoked ");
        output.append(class.as_str());
        output.append(" for recipient identity ");
    } else {
        output.append("No saved ");
        output.append(class.as_str());
        output.append(" decision exists for recipient identity ");
    }
    output.append(identity_digest);
    output.append(".\n");
}

/// No two classes have the same name, and every class is among all of them, once.
pub proof fn classes_are_told_apart(left: OutboundDataClass, right: OutboundDataClass)
    ensures
        left.name() == right.name() <==> left == right,
        all_classes().contains(left),
        all_classes().no_duplicates(),
{
    reveal_strlit("prompt_text");
    reveal_strlit("xana_summary");
    reveal_strlit("selected_messages");
    reveal_strlit("selected_file_contents");
    reveal_strlit("selected_artifacts");
    reveal_strlit("workspace_metadata");
    assert("prompt_text"@[0] == 'p');
    assert("xana_summary"@[0] == 'x');
    assert("workspace_metadata"@[0] == 'w');
    assert("selected_messages"@[0] == 's');
    assert("selected_messages"@[9] == 'm');
    assert("selected_file_contents"@[0] == 's');
    assert("selected_file_contents"@[9] == 'f');
    assert("selected_artifacts"@[0] == 's');
    assert("selected_artifacts"@[9] == 'a');
    let all = all_classes();
    assert(all[0] == OutboundDataClass::PromptText);
    assert(all[1] == OutboundDataClass::XanaSummary);
    assert(all[2] == OutboundDataClass::SelectedMessages);
    assert(all[3] == OutboundDataClass::SelectedFileContents);
    assert(all[4] == OutboundDataClass::SelectedArtifacts);
    assert(all[5] == OutboundDataClass::WorkspaceMetadata);
}

/// Whether a list shows a decision: what it allows or denies, of which class, and to
/// whom.
pub open spec fn shows_decision(text: Seq<char>, record: SavedDecision) -> bool {
    exists|before: Seq<char>, between: Seq<char>, after: Seq<char>|
        text == before + (if record.allow {
            "allow    "@
        } else {
            "deny     "@
        }) + " "@ + record.class.name() + between + record.recipient_identity_digest@ + after
            && #[trigger] in_order(before, between, after)
}

/// Three parts of a text.
pub open spec fn in_order(before: Seq<char>, between: Seq<char>, after: Seq<char>) -> bool {
    before.len() + between.len() + after.len() >= 0
}

proof fn rows_show_their_decision(output: Seq<char>, record: SavedDecision)
    ensures
        shows_decision(decision_row(output, record), record),
{
    reveal_strlit("allow");
    reveal_strlit("deny");
    reveal_strlit("allow    ");
    reveal_strlit("deny     ");
    let word = if record.allow {
        "allow"@
    } else {
        "deny"@
    };
    let wide = if record.allow {
        "allow    "@
    } else {
        "deny     "@
    };
    assert(padded(word, 9) =~= wide);
    let name = record.class.name();
    let filled = padded(name, 23);
    let between = filled.skip(name.len() as int) + " "@ + padded(
        decimal(record.updated_unix_ms as nat),
        14,
    ) + " "@;
    assert(filled =~= name + filled.skip(name.len() as int));
    assert(in_order(output, between, "\n"@));
    assert(decision_row(output, record) =~= output + wide + " "@ + name + between
        + record.recipient_identity_digest@ + "\n"@);
}

/// Every saved decision is in the list of decisions as what it is: an allowance as an
/// allowance and a denial as a denial, of its class and for its recipient.
pub proof fn decisions_are_listed(output: Seq<char>, records: Seq<SavedDecision>, at: int)
    requires
        0 <= at < records.len(),
    ensures
        shows_decision(decision_rows(output, records), records[at]),
    decreases records.len(),
{
    let earlier = decision_rows(output, records.drop_last());
    if at == records.len() - 1 {
        rows_show_their_decision(earlier, records.last());
    } else {
        decisions_are_listed(output, records.drop_last(), at);
        let record = records[at];
        let whole = decision_rows(output, records);
        let wide = if record.allow {
            "allow    "@
        } else {
            "deny     "@
        };
        let (before, between, after) = choose|
            before: Seq<char>,
            between: Seq<char>,
            after: Seq<char>,
        |
            earlier == before + (if record.allow {
                "allow    "@
            } else {
                "deny     "@
            }) + " "@ + record.class.name() + between + record.recipient_identity_digest@ + after
                && #[trigger] in_order(before, between, after);
        let rest = whole.skip(earlier.len() as int);
        assert(whole =~= earlier + rest);
        assert(in_order(before, between, after + rest));
        assert(whole =~= before + wide + " "@ + record.class.name() + between
            + record.recipient_identity_digest@ + (after + rest));
    }
}

/// A decision is revoked where the owner said yes and nowhere else.
pub proof fn revocations_are_confirmed(yes: bool, admitted: Result<(), String>)
    requires
        call_ensures(admit_revocation, (yes,), admitted),
    ensures
        admitted is Ok <==> yes,
{
}

/// A revocation is told with the class and the recipient that it concerns, and one that
/// found nothing does not say that something was revoked.
pub proof fn revocations_are_told(
    class: OutboundDataClass,
    identity_digest: &str,
    revoked: bool,
    output: &mut String,
)
    requires
        call_ensures(write_revocation, (class, identity_digest, revoked, output), ()),
    ensures
        old(output)@.is_prefix_of(final(output)@),
        revoked ==> occurs(final(output)@, "Revoked "@ + class.name()),
        !revoked ==> occurs(final(output)@, "No saved "@ + class.name()),
        occurs(final(output)@, " recipient identity "@ + identity_digest@),
        final(output)@.len() > old(output)@.len(),
        final(output)@[old(output)@.len() as int] == 'R' <==> revoked,
{
    reveal_strlit("Revoked ");
    reveal_strlit("No saved ");
    reveal_strlit(" recipient identity ");
    reveal_strlit(" for recipient identity ");
    reveal_strlit(" decision exists for recipient identity ");
    let start = old(output)@;
    let whole = final(output)@;
    if revoked {
        let t1 = start + "Revoked "@;
        let t2 = t1 + class.name();
        let t3 = t2 + " for recipient identity "@;
        let t4 = t3 + identity_digest@;
        let t5 = t4 + ".\n"@;
        assert(t5.is_prefix_of(whole));
        beginnings_begin_alike(t4, ".\n"@, whole);
        beginnings_begin_alike(t3, identity_digest@, whole);
        beginnings_begin_alike(t2, " for recipient identity "@, whole);
        beginnings_begin_alike(t1, class.name(), whole);
        beginnings_begin_alike(start, "Revoked "@, whole);
        ends_occur(start, "Revoked "@, class.name());
        beginnings_are_held(t2, whole, "Revoked "@ + class.name());
        let front = t2 + " for"@;
        reveal_strlit(" for");
        assert(front + " recipient identity "@ =~= t3);
        ends_occur(front, " recipient identity "@, identity_digest@);
        beginnings_are_held(t4, whole, " recipient identity "@ + identity_digest@);
    } else {
        let t1 = start + "No saved "@;
        let t2 = t1 + class.name();
        let t3 = t2 + " decision exists for recipient identity "@;
        let t4 = t3 + identity_digest@;
        let t5 = t4 + ".\n"@;
        assert(t5.is_prefix_of(whole));
        beginnings_begin_alike(t4, ".\n"@, whole);
        beginnings_begin_alike(t3, identity_digest@, whole);
        beginnings_begin_alike(t2, " decision exists for recipient identity "@, whole);
        beginnings_begin_alike(t1, class.name(), whole);
        beginnings_begin_alike(start, "No saved "@, whole);
        ends_occur(start, "No saved "@, class.name());
        beginnings_are_held(t2, whole, "No saved "@ + class.name());
        let front = t2 + " decision exists for"@;
        reveal_strlit(" decision exists for");
        assert(front + " recipient identity "@ =~= t3);
        ends_occur(front, " recipient identity "@, identity_digest@);
        beginnings_are_held(t4, whole, " recipient identity "@ + identity_digest@);
    }
    assert(whole[start.len() as int] == (if revoked {
        'R'
    } else {
        'N'
    }));
}

}
