use vstd::prelude::*;
use crate::text::{
    i32_text, int_text, join_ids, joined_ids, joined_ids_lists_every_id, lemma_occurs_in_context, lemma_occurs_in_self,
    occurs_in, parse_u64, parse_u64_spec,
};

verus! {

/// What the bot knows of the member who runs a command: whether they are an
/// administrator of the server (its owner, or holding a role with the
/// administrator permission) and the ids of their roles.
pub struct MemberAccess {
    pub administrator: bool,
    pub role_ids: Vec<u64>,
}

/// Whether a member may approve or reject pending waypoints: they must be a
/// member of the server, and either an administrator of it or hold the
/// admin role whose id the configured role variable names.
pub open spec fn permission_granted(member: Option<MemberAccess>, admin_role_var: Option<String>) -> bool {
    match member {
        None => false,
        Some(m) => {
            if m.administrator {
                true
            } else {
                match admin_role_var {
                    None => false,
                    Some(v) => match parse_u64_spec(v@) {
                        None => false,
                        Some(role) => m.role_ids@.contains(role),
                    },
                }
            }
        },
    }
}

/// A server administrator always passes the permission check, whatever the
/// admin role variable holds; nobody outside the server does.
pub proof fn server_administrators_pass(m: MemberAccess, admin_role_var: Option<String>)
    ensures
        m.administrator ==> permission_granted(Some(m), admin_role_var),
        !permission_granted(None, admin_role_var),
{
}

/// A member who is not an administrator passes the permission check through
/// the admin role alone: exactly when the role id that the variable holds is
/// one of their roles, at any position.
pub proof fn admin_role_grants_by_membership(m: MemberAccess, admin_role_var: String, role: u64)
    requires
        !m.administrator,
        parse_u64_spec(admin_role_var@) == Some(role),
    ensures
        permission_granted(Some(m), Some(admin_role_var)) <==> exists|j: int|
            0 <= j < m.role_ids@.len() && m.role_ids@[j] == role,
{
}

/// Holding more roles never takes a permission away: a member whose roles
/// include all of another's passes whenever the other does.
pub proof fn more_roles_keep_permission(
    m1: MemberAccess,
    m2: MemberAccess,
    admin_role_var: Option<String>,
)
    requires
        m1.administrator ==> m2.administrator,
        forall|j: int| 0 <= j < m1.role_ids@.len() ==> m2.role_ids@.contains(#[trigger] m1.role_ids@[j]),
    ensures
        permission_granted(Some(m1), admin_role_var) ==> permission_granted(Some(m2), admin_role_var),
{
    if permission_granted(Some(m1), admin_role_var) && !m2.administrator {
        let v = admin_role_var->Some_0;
        let role = parse_u64_spec(v@)->Some_0;
        let j = choose|j: int| 0 <= j < m1.role_ids@.len() && m1.role_ids@[j] == role;
        assert(m2.role_ids@.contains(m1.role_ids@[j]));
    }
}

/// The inputs on which the permission check would build a role id of zero,
/// which Discord ids never are.
pub open spec fn zero_admin_role(member: Option<MemberAccess>, admin_role_var: Option<String>) -> bool {
    &&& member matches Some(m)
    &&& !m.administrator
    &&& admin_role_var matches Some(v)
    &&& parse_u64_spec(v@) == Some(0u64)
}

/// Whether the permission check would build a role id of zero; a caller
/// tests this before `has_permission`.
pub fn zero_admin_role_check(member: &Option<MemberAccess>, admin_role_var: &Option<String>) -> (zero: bool)
    ensures
        zero == zero_admin_role(*member, *admin_role_var),
{
    match member {
        None => false,
        Some(m) => {
            if m.administrator {
                return false;
            }
            match admin_role_var {
                None => false,
                Some(v) => match parse_u64(v.as_str()) {
                    Some(role) => role == 0,
                    None => false,
                },
            }
        },
    }
}

/// True, if the member is in the server and either is a server administrator
/// or holds the admin role (whose id is the value of the admin role
/// variable, when it is set and parses).
#[verifier::loop_isolation(false)]
pub fn has_permission(member: &Option<MemberAccess>, admin_role_var: &Option<String>) -> (granted: bool)
    requires
        !zero_admin_role(*member, *admin_role_var),
    ensures
        granted == permission_granted(*member, *admin_role_var),
{
    let m = match member {
        Some(val) => val,
        None => {
            return false;
        },
    };
    if m.administrator {
        return true;
    }
    let role = match admin_role_var {
        Some(v) => match parse_u64(v.as_str()) {
            Some(parsed) => parsed,
            None => {
                return false;
            },
        },
        None => {
            return false;
        },
    };
    let n = m.role_ids.len();
    let mut i: usize = 0;
    while i < n
        invariant
            i <= n,
            n == m.role_ids@.len(),
            forall|j: int| 0 <= j < i ==> m.role_ids@[j] != role,
        decreases n - i,
    {
        if m.role_ids[i] == role {
            assert(m.role_ids@[i as int] == role);
            return true;
        }
        i = i + 1;
    }
    false
}

/// Whether a moderation command approves or rejects.
#[derive(Clone, Copy, Debug, PartialEq, Eq)]
pub enum ApproveOrRejectEnum {
    Approve,
    Reject,
}

/// "Approved" or "Rejected".
pub open spec fn verb(a: ApproveOrRejectEnum) -> Seq<char> {
    match a {
        ApproveOrRejectEnum::Approve => "Approved"@,
        ApproveOrRejectEnum::Reject => "Rejected"@,
    }
}

/// "Approve" or "Reject".
pub open spec fn noun(a: ApproveOrRejectEnum) -> Seq<char> {
    match a {
        ApproveOrRejectEnum::Approve => "Approve"@,
        ApproveOrRejectEnum::Reject => "Reject"@,
    }
}

impl ApproveOrRejectEnum {
    /// "Approved" or "Rejected"
    pub fn to_verb(&self) -> (s: String)
        ensures
            s@ == verb(*self),
    {
        match self {
            ApproveOrRejectEnum::Approve => "Approved".to_owned(),
            ApproveOrRejectEnum::Reject => "Rejected".to_owned(),
        }
    }

    /// "Approve" or "Reject"
    pub fn to_noun(&self) -> (s: String)
        ensures
            s@ == noun(*self),
    {
        match self {
            ApproveOrRejectEnum::Approve => "Approve".to_owned(),
            ApproveOrRejectEnum::Reject => "Reject".to_owned(),
        }
    }
}


/// A moderation command: `approve_or_reject_pending_waypoints` with its
/// action, `approve` or `reject`.
#[derive(Clone, Copy, Debug, PartialEq, Eq)]
pub enum ModerationCommand {
    ApproveOrReject(ApproveOrRejectEnum),
    Approve,
    Reject,
}

/// Where a moderation command stands.
#[derive(Clone, Copy, Debug, PartialEq, Eq)]
pub enum ModerationStage {
    /// Nothing done yet.
    Start,
    /// Waiting for the member's permission.
    CheckingPermission,
    /// Waiting to learn whether any waypoint is pending.
    CheckingPending,
    /// The warning before approving everything is being sent.
    Warned,
    /// The database is approving or rejecting.
    Applying,
    /// The last message is being sent.
    Finishing,
    /// The command is over.
    Done,
}

/// What the bot reports back to a moderation command.
pub enum ModerationEvent {
    /// The command was invoked.
    Begin,
    /// Whether the member has permission.
    PermissionChecked(bool),
    /// Whether any waypoint is pending; `None` when the database could not
    /// tell.
    PendingChecked(Option<bool>),
    /// A message was sent.
    Said,
    /// The ids that the database approved or rejected.
    Applied(Vec<i32>),
}

/// A moderation event with its ids as a sequence.
pub enum ModerationEventView {
    Begin,
    PermissionChecked(bool),
    PendingChecked(Option<bool>),
    Said,
    Applied(Seq<i32>),
}

impl View for ModerationEvent {
    type V = ModerationEventView;

    open spec fn view(&self) -> ModerationEventView {
        match self {
            ModerationEvent::Begin => ModerationEventView::Begin,
            ModerationEvent::PermissionChecked(b) => ModerationEventView::PermissionChecked(*b),
            ModerationEvent::PendingChecked(r) => ModerationEventView::PendingChecked(*r),
            ModerationEvent::Said => ModerationEventView::Said,
            ModerationEvent::Applied(ids) => ModerationEventView::Applied(ids@),
        }
    }
}

/// What a moderation command asks the bot to do next.
pub enum ModerationAction {
    /// Check whether the member may moderate.
    CheckPermission,
    /// Ask the database whether any waypoint is pending.
    CheckPending,
    /// Send this message.
    Say(String),
    /// Approve the pending waypoint with this id, or all of them.
    ApprovePending(Option<i32>),
    /// Reject the pending waypoint with this id, or all of them.
    RejectPending(Option<i32>),
    /// Stop: the command succeeded.
    Finish,
}

/// A moderation action with its message as a character sequence.
pub enum ModerationActionView {
    CheckPermission,
    CheckPending,
    Say(Seq<char>),
    ApprovePending(Option<i32>),
    RejectPending(Option<i32>),
    Finish,
}

impl View for ModerationAction {
    type V = ModerationActionView;

    open spec fn view(&self) -> ModerationActionView {
        match self {
            ModerationAction::CheckPermission => ModerationActionView::CheckPermission,
            ModerationAction::CheckPending => ModerationActionView::CheckPending,
            ModerationAction::Say(s) => ModerationActionView::Say(s@),
            ModerationAction::ApprovePending(id) => ModerationActionView::ApprovePending(*id),
            ModerationAction::RejectPending(id) => ModerationActionView::RejectPending(*id),
            ModerationAction::Finish => ModerationActionView::Finish,
        }
    }
}

/// The label of the id that an approval or a rejection reports.
pub open spec fn id_label(a: ApproveOrRejectEnum) -> Seq<char> {
    match a {
        ApproveOrRejectEnum::Approve => "New Waypoint ID"@,
        ApproveOrRejectEnum::Reject => "Rejected Pending Waypoint ID"@,
    }
}

/// The report of `approve_or_reject_pending_waypoints` once the database has
/// answered with `ids`, for the requested `id`.
pub open spec fn approve_or_reject_report(a: ApproveOrRejectEnum, id: Option<i32>, ids: Seq<i32>) -> Seq<char> {
    if ids.len() == 0 {
        "No Waypoints were $"@ + verb(a) + "!"@
    } else if ids.len() == 1 && id is Some {
        "Waypoint succesfully "@ + verb(a) + "!\n"@ + id_label(a) + ": "@ + int_text(ids[0] as int)
    } else if id is None {
        "Waypoints succesfully "@ + verb(a) + "!\nIDs: "@ + joined_ids(ids)
    } else {
        "Multiple Waypoints were "@ + verb(a) + ", which is weird :/\nAnyways, here are the IDs: "@ + joined_ids(ids)
    }
}

/// The report of `approve` once the database has answered with `ids`, for
/// the requested `id`.
pub open spec fn approve_report(id: Option<i32>, ids: Seq<i32>) -> Seq<char> {
    match id {
        Some(_) => {
            if ids.len() == 0 {
                "Failed to approve Waypoint, or Waypoint ID is incorrect"@
            } else if ids.len() == 1 {
                "Wapoint succesfully approved!\nNew Waypoint ID is #"@ + int_text(ids[0] as int)
            } else {
                "It seems like multiple Waypoints were approved, which is weird :/\n                    Anyways, there are the new ID's: "@
                    + joined_ids(ids)
            }
        },
        None => {
            if ids.len() == 0 {
                "Failed to approve Waypoints"@
            } else {
                "Waypoints approved!\nHere are the new ID's: "@ + joined_ids(ids)
            }
        },
    }
}

/// The message for a member without permission.
pub open spec fn no_permission_text() -> Seq<char> {
    "You don't have permissions to perform this operation!"@
}

/// The message when nothing is pending.
pub open spec fn nothing_pending_text(cmd: ModerationCommand) -> Seq<char> {
    match cmd {
        ModerationCommand::ApproveOrReject(a) => "No Waypoints to "@ + noun(a) + "!"@,
        _ => "No Waypoints to approve!"@,
    }
}

/// The warning given when no id is named.
pub open spec fn all_waypoints_warning(cmd: ModerationCommand) -> Seq<char> {
    match cmd {
        ModerationCommand::ApproveOrReject(a) => "**Warning!** All Waypoints will be "@ + verb(a) + ".\nProceed?"@,
        _ => "**Warning!** All Waypoints will be approved.\nProceed?"@,
    }
}

/// The message of `reject`, which does not reject anything yet.
pub open spec fn not_implemented_text() -> Seq<char> {
    "*Sorry, this feature is not implemented (yet!)*"@
}

/// The database action that applies a moderation command to `id`.
pub open spec fn apply_action(cmd: ModerationCommand, id: Option<i32>) -> ModerationActionView {
    match cmd {
        ModerationCommand::ApproveOrReject(ApproveOrRejectEnum::Reject) => ModerationActionView::RejectPending(id),
        _ => ModerationActionView::ApprovePending(id),
    }
}

/// One step of a moderation command: from its stage and what the bot
/// reports, the next stage and what the bot is to do.
///
/// The command checks the member's permission, then whether anything is
/// pending (a failed check counts as pending), then applies itself to the
/// requested id and reports the outcome. Without an id,
/// `approve_or_reject_pending_waypoints` only warns, `approve` warns and then
/// approves everything, and `reject` never applies.
pub open spec fn moderation_next(
    cmd: ModerationCommand,
    id: Option<i32>,
    stage: ModerationStage,
    event: ModerationEventView,
) -> (ModerationStage, ModerationActionView) {
    match (stage, event) {
        (ModerationStage::Start, ModerationEventView::Begin) =>
            (ModerationStage::CheckingPermission, ModerationActionView::CheckPermission),
        (ModerationStage::CheckingPermission, ModerationEventView::PermissionChecked(granted)) =>
            if granted {
                (ModerationStage::CheckingPending, ModerationActionView::CheckPending)
            } else {
                (ModerationStage::Finishing, ModerationActionView::Say(no_permission_text()))
            },
        (ModerationStage::CheckingPending, ModerationEventView::PendingChecked(found)) => {
            let any_pending = match found {
                Some(b) => b,
                None => true,
            };
            if !any_pending {
                (ModerationStage::Finishing, ModerationActionView::Say(nothing_pending_text(cmd)))
            } else {
                match cmd {
                    ModerationCommand::Reject =>
                        (ModerationStage::Finishing, ModerationActionView::Say(not_implemented_text())),
                    ModerationCommand::Approve =>
                        if id is Some {
                            (ModerationStage::Applying, apply_action(cmd, id))
                        } else {
                            (ModerationStage::Warned, ModerationActionView::Say(all_waypoints_warning(cmd)))
                        },
                    ModerationCommand::ApproveOrReject(_) =>
                        if id is Some {
                            (ModerationStage::Applying, apply_action(cmd, id))
                        } else {
                            (ModerationStage::Finishing, ModerationActionView::Say(all_waypoints_warning(cmd)))
                        },
                }
            }
        },
        (ModerationStage::Warned, ModerationEventView::Said) =>
            if cmd == ModerationCommand::Approve {
                (ModerationStage::Applying, apply_action(cmd, id))
            } else {
                (ModerationStage::Done, ModerationActionView::Finish)
            },
        (ModerationStage::Applying, ModerationEventView::Applied(ids)) =>
            match cmd {
                ModerationCommand::ApproveOrReject(a) =>
                    (ModerationStage::Finishing, ModerationActionView::Say(approve_or_reject_report(a, id, ids))),
                ModerationCommand::Approve =>
                    (ModerationStage::Finishing, ModerationActionView::Say(approve_report(id, ids))),
                ModerationCommand::Reject => (ModerationStage::Done, ModerationActionView::Finish),
            },
        _ => (ModerationStage::Done, ModerationActionView::Finish),
    }
}

/// Builds the report of `approve_or_reject_pending_waypoints`.
fn approve_or_reject_report_text(a: ApproveOrRejectEnum, id: Option<i32>, ids: &Vec<i32>) -> (s: String)
    ensures
        s@ == approve_or_reject_report(a, id, ids@),
{
    let v = a.to_verb();
    let mut s = String::new();
    if ids.len() == 0 {
        s.append("No Waypoints were $");
        s.append(v.as_str());
        s.append("!");
    } else if ids.len() == 1 && id.is_some() {
        s.append("Waypoint succesfully ");
        s.append(v.as_str());
        s.append("!\n");
        let label = match a {
            ApproveOrRejectEnum::Approve => "New Waypoint ID",
            ApproveOrRejectEnum::Reject => "Rejected Pending Waypoint ID",
        };
        s.append(label);
        s.append(": ");
        let first = i32_text(ids[0]);
        s.append(first.as_str());
    } else if id.is_none() {
        s.append("Waypoints succesfully ");
        s.append(v.as_str());
        s.append("!\nIDs: ");
        let all = join_ids(ids);
        s.append(all.as_str());
    } else {
        s.append("Multiple Waypoints were ");
        s.append(v.as_str());
        s.append(", which is weird :/\nAnyways, here are the IDs: ");
        let all = join_ids(ids);
        s.append(all.as_str());
    }
    s
}

/// Builds the report of `approve`.
fn approve_report_text(id: Option<i32>, ids: &Vec<i32>) -> (s: String)
    ensures
        s@ == approve_report(id, ids@),
{
    let mut s = String::new();
    match id {
        Some(_) => {
            if ids.len() == 0 {
                s.append("Failed to approve Waypoint, or Waypoint ID is incorrect");
            } else if ids.len() == 1 {
                s.append("Wapoint succesfully approved!\nNew Waypoint ID is #");
                let first = i32_text(ids[0]);
                s.append(first.as_str());
            } else {
                s.append("It seems like multiple Waypoints were approved, which is weird :/\n                    Anyways, there are the new ID's: ");
                let all = join_ids(ids);
                s.append(all.as_str());
            }
        },
        None => {
            if ids.len() == 0 {
                s.append("Failed to approve Waypoints");
            } else {
                s.append("Waypoints approved!\nHere are the new ID's: ");
                let all = join_ids(ids);
                s.append(all.as_str());
            }
        },
    }
    s
}

fn say(text: &str) -> (action: ModerationAction)
    ensures
        action@ == ModerationActionView::Say(text@),
{
    ModerationAction::Say(text.to_owned())
}

fn apply(cmd: ModerationCommand, id: Option<i32>) -> (action: ModerationAction)
    ensures
        action@ == apply_action(cmd, id),
{
    match cmd {
        ModerationCommand::ApproveOrReject(ApproveOrRejectEnum::Reject) => ModerationAction::RejectPending(id),
        _ => ModerationAction::ApprovePending(id),
    }
}

/// One step of a moderation command.
pub(crate) fn moderation_step(cmd: ModerationCommand, id: Option<i32>, stage: ModerationStage, event: ModerationEvent) -> (next: (
    ModerationStage,
    ModerationAction,
))
    ensures
        (next.0, next.1@) == moderation_next(cmd, id, stage, event@),
{
    match stage {
        ModerationStage::Start => {
            if let ModerationEvent::Begin = event {
                return (ModerationStage::CheckingPermission, ModerationAction::CheckPermission);
            }
        },
        ModerationStage::CheckingPermission => {
            if let ModerationEvent::PermissionChecked(granted) = event {
                if granted {
                    return (ModerationStage::CheckingPending, ModerationAction::CheckPending);
                } else {
                    return (ModerationStage::Finishing, say("You don't have permissions to perform this operation!"));
                }
            }
        },
        ModerationStage::CheckingPending => {
            if let ModerationEvent::PendingChecked(found) = event {
                let any_pending = match found {
                    Some(b) => b,
                    None => true,
                };
                if !any_pending {
                    let text = match cmd {
                        ModerationCommand::ApproveOrReject(a) => {
                            let mut t = String::new();
                            t.append("No Waypoints to ");
                            let n = a.to_noun();
                            t.append(n.as_str());
                            t.append("!");
                            t
                        },
                        _ => "No Waypoints to approve!".to_owned(),
                    };
                    return (ModerationStage::Finishing, ModerationAction::Say(text));
                }
                match cmd {
                    ModerationCommand::Reject => {
                        return (ModerationStage::Finishing, say("*Sorry, this feature is not implemented (yet!)*"));
                    },
                    ModerationCommand::Approve => {
                        if id.is_some() {
                            return (ModerationStage::Applying, apply(cmd, id));
                        } else {
                            return (ModerationStage::Warned, say("**Warning!** All Waypoints will be approved.\nProceed?"));
                        }
                    },
                    ModerationCommand::ApproveOrReject(a) => {
                        if id.is_some() {
                            return (ModerationStage::Applying, apply(cmd, id));
                        } else {
                            let mut t = String::new();
                            t.append("**Warning!** All Waypoints will be ");
                            let v = a.to_verb();
                            t.append(v.as_str());
                            t.append(".\nProceed?");
                            return (ModerationStage::Finishing, ModerationAction::Say(t));
                        }
                    },
                }
            }
        },
        ModerationStage::Warned => {
            if let ModerationEvent::Said = event {
                if let ModerationCommand::Approve = cmd {
                    return (ModerationStage::Applying, apply(cmd, id));
                }
            }
        },
        ModerationStage::Applying => {
            if let ModerationEvent::Applied(ids) = event {
                match cmd {
                    ModerationCommand::ApproveOrReject(a) => {
                        let text = approve_or_reject_report_text(a, id, &ids);
                        return (ModerationStage::Finishing, ModerationAction::Say(text));
                    },
                    ModerationCommand::Approve => {
                        let text = approve_report_text(id, &ids);
                        return (ModerationStage::Finishing, ModerationAction::Say(text));
                    },
                    ModerationCommand::Reject => {},
                }
            }
        },
        ModerationStage::Finishing => {},
        ModerationStage::Done => {},
    }
    (ModerationStage::Done, ModerationAction::Finish)
}

/// One step of approving or rejecting pending waypoints: the pending waypoint
/// with id `id`, or, with no id, all of them after a warning (which, for now,
/// ends the command).
pub fn approve_or_reject_pending_waypoints(
    id: Option<i32>,
    action: ApproveOrRejectEnum,
    stage: ModerationStage,
    event: ModerationEvent,
) -> (next: (ModerationStage, ModerationAction))
    ensures
        (next.0, next.1@) == moderation_next(ModerationCommand::ApproveOrReject(action), id, stage, event@),
{
    moderation_step(ModerationCommand::ApproveOrReject(action), id, stage, event)
}


/// Whether an action approves or rejects pending waypoints in the database.
pub open spec fn changes_database(a: ModerationActionView) -> bool {
    a is ApprovePending || a is RejectPending
}

/// Whether an event reports that waypoints may be pending (a failed check
/// counts as such).
pub open spec fn reports_pending(e: ModerationEventView) -> bool {
    e matches ModerationEventView::PendingChecked(found) && found != Some(false)
}

/// The actions that a moderation command asks for, one per event, when it
/// starts at `stage` and the bot reports `events`.
pub open spec fn moderation_run(
    cmd: ModerationCommand,
    id: Option<i32>,
    stage: ModerationStage,
    events: Seq<ModerationEventView>,
) -> Seq<ModerationActionView>
    decreases events.len(),
{
    if events.len() == 0 {
        Seq::empty()
    } else {
        let (next, action) = moderation_next(cmd, id, stage, events[0]);
        seq![action] + moderation_run(cmd, id, next, events.drop_first())
    }
}

proof fn lemma_run_len(cmd: ModerationCommand, id: Option<i32>, stage: ModerationStage, events: Seq<ModerationEventView>)
    ensures
        moderation_run(cmd, id, stage, events).len() == events.len(),
    decreases events.len(),
{
    if events.len() > 0 {
        let (next, _) = moderation_next(cmd, id, stage, events[0]);
        lemma_run_len(cmd, id, next, events.drop_first());
    }
}

proof fn lemma_changes_need_history(
    cmd: ModerationCommand,
    id: Option<i32>,
    stage: ModerationStage,
    events: Seq<ModerationEventView>,
    k: int,
)
    requires
        0 <= k < events.len(),
        stage != ModerationStage::Warned,
        changes_database(moderation_run(cmd, id, stage, events)[k]),
    ensures
        stage == ModerationStage::CheckingPending ==> exists|j: int| 0 <= j <= k && reports_pending(#[trigger] events[j]),
        stage != ModerationStage::CheckingPending ==> exists|i: int, j: int|
            0 <= i < j <= k && #[trigger] events[i] == ModerationEventView::PermissionChecked(true)
                && reports_pending(#[trigger] events[j]),
    decreases events.len(),
{
    let (next, action) = moderation_next(cmd, id, stage, events[0]);
    let rest = events.drop_first();
    lemma_run_len(cmd, id, next, rest);
    if k == 0 {
        assert(changes_database(action));
        assert(reports_pending(events[0]));
    } else {
        assert(moderation_run(cmd, id, stage, events)[k] == moderation_run(cmd, id, next, rest)[k - 1]);
        if next == ModerationStage::Warned {
            assert(stage == ModerationStage::CheckingPending);
            assert(reports_pending(events[0]));
        } else {
            lemma_changes_need_history(cmd, id, next, rest, k - 1);
            if next == ModerationStage::CheckingPending {
                assert(events[0] == ModerationEventView::PermissionChecked(true));
                let j = choose|j: int| 0 <= j <= k - 1 && reports_pending(#[trigger] rest[j]);
                assert(rest[j] == events[j + 1]);
                assert(events[0] == ModerationEventView::PermissionChecked(true) && reports_pending(events[j + 1]));
            } else {
                let (i, j) = choose|i: int, j: int|
                    0 <= i < j <= k - 1 && #[trigger] rest[i] == ModerationEventView::PermissionChecked(true)
                        && reports_pending(#[trigger] rest[j]);
                assert(rest[i] == events[i + 1]);
                assert(rest[j] == events[j + 1]);
                assert(events[i + 1] == ModerationEventView::PermissionChecked(true) && reports_pending(events[j + 1]));
            }
        }
    }
}

/// No member moderates without permission: in every run of a moderation
/// command, an action that approves or rejects pending waypoints comes only
/// after the bot reported that the member has permission, and after that,
/// that waypoints may be pending.
pub proof fn no_moderation_without_permission(
    cmd: ModerationCommand,
    id: Option<i32>,
    events: Seq<ModerationEventView>,
    k: int,
)
    requires
        0 <= k < events.len(),
        changes_database(moderation_run(cmd, id, ModerationStage::Start, events)[k]),
    ensures
        exists|i: int, j: int|
            0 <= i < j <= k && #[trigger] events[i] == ModerationEventView::PermissionChecked(true)
                && reports_pending(#[trigger] events[j]),
{
    lemma_changes_need_history(cmd, id, ModerationStage::Start, events, k);
}

/// A moderation command touches only what was asked for: an approval or a
/// rejection concerns exactly the requested id and comes from a command that
/// approves or rejects respectively; `reject` never changes the database,
/// and neither does `approve_or_reject_pending_waypoints` without an id.
pub proof fn moderation_touches_only_requested(
    cmd: ModerationCommand,
    id: Option<i32>,
    stage: ModerationStage,
    event: ModerationEventView,
)
    ensures
        moderation_next(cmd, id, stage, event).1 matches ModerationActionView::ApprovePending(x) ==> x == id && (
        cmd == ModerationCommand::Approve || cmd == ModerationCommand::ApproveOrReject(ApproveOrRejectEnum::Approve)),
        moderation_next(cmd, id, stage, event).1 matches ModerationActionView::RejectPending(x) ==> x == id && cmd
            == ModerationCommand::ApproveOrReject(ApproveOrRejectEnum::Reject),
        cmd == ModerationCommand::Reject ==> !changes_database(moderation_next(cmd, id, stage, event).1),
        cmd is ApproveOrReject && id is None ==> !changes_database(moderation_next(cmd, id, stage, event).1),
{
}


/// Approving and rejecting are told apart: each verb begins with its noun,
/// and the two actions have different verbs and nouns.
pub proof fn verbs_name_their_action(a: ApproveOrRejectEnum, b: ApproveOrRejectEnum)
    ensures
        verb(a).len() > noun(a).len(),
        verb(a).take(noun(a).len() as int) == noun(a),
        a != b ==> verb(a) != verb(b) && noun(a) != noun(b) && verb(a)[0] != verb(b)[0],
{
    reveal_strlit("Approved");
    reveal_strlit("Rejected");
    reveal_strlit("Approve");
    reveal_strlit("Reject");
    assert("Approved"@.take(7) =~= "Approve"@);
    assert("Rejected"@.take(6) =~= "Reject"@);
    assert("Approved"@[0] != "Rejected"@[0]);
    assert("Approve"@[0] != "Reject"@[0]);
}

/// Without an id, `approve_or_reject_pending_waypoints` (once it may go on)
/// only warns, and the warning names the command's own action: it says the
/// waypoints will be "Approved" or "Rejected" as asked, so approving and
/// rejecting warn differently.
pub proof fn warning_names_the_action(a: ApproveOrRejectEnum, found: Option<bool>)
    requires
        found != Some(false),
    ensures
        moderation_next(
            ModerationCommand::ApproveOrReject(a),
            None,
            ModerationStage::CheckingPending,
            ModerationEventView::PendingChecked(found),
        ) == (ModerationStage::Finishing, ModerationActionView::Say(
            "**Warning!** All Waypoints will be "@ + verb(a) + ".\nProceed?"@,
        )),
        moderation_next(
            ModerationCommand::ApproveOrReject(ApproveOrRejectEnum::Approve),
            None,
            ModerationStage::CheckingPending,
            ModerationEventView::PendingChecked(found),
        ) != moderation_next(
            ModerationCommand::ApproveOrReject(ApproveOrRejectEnum::Reject),
            None,
            ModerationStage::CheckingPending,
            ModerationEventView::PendingChecked(found),
        ),
{
    let p = "**Warning!** All Waypoints will be "@;
    let w1 = p + verb(ApproveOrRejectEnum::Approve) + ".\nProceed?"@;
    let w2 = p + verb(ApproveOrRejectEnum::Reject) + ".\nProceed?"@;
    verbs_name_their_action(ApproveOrRejectEnum::Approve, ApproveOrRejectEnum::Reject);
    verbs_name_their_action(ApproveOrRejectEnum::Reject, ApproveOrRejectEnum::Approve);
    let i = p.len() as int;
    assert(verb(ApproveOrRejectEnum::Approve).len() > 0);
    assert(verb(ApproveOrRejectEnum::Reject).len() > 0);
    assert((p + verb(ApproveOrRejectEnum::Approve))[i] == verb(ApproveOrRejectEnum::Approve)[0]);
    assert((p + verb(ApproveOrRejectEnum::Reject))[i] == verb(ApproveOrRejectEnum::Reject)[0]);
    assert(w1[i] == verb(ApproveOrRejectEnum::Approve)[0]);
    assert(w2[i] == verb(ApproveOrRejectEnum::Reject)[0]);
    assert(w1[i] != w2[i]);
}

/// The report of `approve_or_reject_pending_waypoints` says that nothing
/// happened exactly when the database returned no ids, and otherwise lists
/// every id that it returned.
pub proof fn approve_or_reject_report_lists_ids(a: ApproveOrRejectEnum, id: Option<i32>, ids: Seq<i32>)
    ensures
        (approve_or_reject_report(a, id, ids) == "No Waypoints were $"@ + verb(a) + "!"@) <==> ids.len() == 0,
        forall|j: int| 0 <= j < ids.len() ==> occurs_in(int_text(ids[j] as int), approve_or_reject_report(a, id, ids)),
{
    reveal_strlit("No Waypoints were $");
    reveal_strlit("Waypoint succesfully ");
    reveal_strlit("Waypoints succesfully ");
    reveal_strlit("Multiple Waypoints were ");
    let report = approve_or_reject_report(a, id, ids);
    let failure = "No Waypoints were $"@ + verb(a) + "!"@;
    if ids.len() > 0 {
        assert(report[0] != failure[0]);
        assert forall|j: int| 0 <= j < ids.len() implies occurs_in(int_text(ids[j] as int), report) by {
            if ids.len() == 1 && id is Some {
                lemma_occurs_in_self(int_text(ids[0] as int));
                let before = "Waypoint succesfully "@ + verb(a) + "!\n"@ + id_label(a) + ": "@;
                lemma_occurs_in_context(int_text(ids[0] as int), int_text(ids[0] as int), before, Seq::empty());
                assert(before + int_text(ids[0] as int) + Seq::<char>::empty() =~= report);
            } else {
                joined_ids_lists_every_id(ids, j);
                let before = if id is None {
                    "Waypoints succesfully "@ + verb(a) + "!\nIDs: "@
                } else {
                    "Multiple Waypoints were "@ + verb(a) + ", which is weird :/\nAnyways, here are the IDs: "@
                };
                lemma_occurs_in_context(int_text(ids[j] as int), joined_ids(ids), before, Seq::empty());
                assert(before + joined_ids(ids) + Seq::<char>::empty() =~= report);
            }
        }
    }
}

proof fn lemma_differ_after_prefix(p: Seq<char>, x: Seq<char>, y: Seq<char>, s: Seq<char>, t: Seq<char>)
    requires
        x.len() > 0,
        y.len() > 0,
        x[0] != y[0],
    ensures
        p + x + s != p + y + t,
{
    let i = p.len() as int;
    assert((p + x + s)[i] == x[0]);
    assert((p + y + t)[i] == y[0]);
}

/// Approving and rejecting report differently: for the same request and the
/// same answer of the database, and likewise when nothing is pending.
pub proof fn approve_and_reject_report_differently(id: Option<i32>, ids: Seq<i32>)
    ensures
        approve_or_reject_report(ApproveOrRejectEnum::Approve, id, ids) != approve_or_reject_report(
            ApproveOrRejectEnum::Reject,
            id,
            ids,
        ),
        nothing_pending_text(ModerationCommand::ApproveOrReject(ApproveOrRejectEnum::Approve)) != nothing_pending_text(
            ModerationCommand::ApproveOrReject(ApproveOrRejectEnum::Reject),
        ),
{
    verbs_name_their_action(ApproveOrRejectEnum::Approve, ApproveOrRejectEnum::Reject);
    verbs_name_their_action(ApproveOrRejectEnum::Reject, ApproveOrRejectEnum::Approve);
    let va = verb(ApproveOrRejectEnum::Approve);
    let vr = verb(ApproveOrRejectEnum::Reject);
    if ids.len() == 0 {
        lemma_differ_after_prefix("No Waypoints were $"@, va, vr, "!"@, "!"@);
    } else if ids.len() == 1 && id is Some {
        lemma_differ_after_prefix(
            "Waypoint succesfully "@,
            va,
            vr,
            "!\n"@ + id_label(ApproveOrRejectEnum::Approve) + ": "@ + int_text(ids[0] as int),
            "!\n"@ + id_label(ApproveOrRejectEnum::Reject) + ": "@ + int_text(ids[0] as int),
        );
        assert("Waypoint succesfully "@ + va + "!\n"@ + id_label(ApproveOrRejectEnum::Approve) + ": "@ + int_text(ids[0] as int)
            =~= "Waypoint succesfully "@ + va + ("!\n"@ + id_label(ApproveOrRejectEnum::Approve) + ": "@ + int_text(ids[0] as int)));
        assert("Waypoint succesfully "@ + vr + "!\n"@ + id_label(ApproveOrRejectEnum::Reject) + ": "@ + int_text(ids[0] as int)
            =~= "Waypoint succesfully "@ + vr + ("!\n"@ + id_label(ApproveOrRejectEnum::Reject) + ": "@ + int_text(ids[0] as int)));
    } else if id is None {
        lemma_differ_after_prefix("Waypoints succesfully "@, va, vr, "!\nIDs: "@ + joined_ids(ids), "!\nIDs: "@ + joined_ids(ids));
        assert("Waypoints succesfully "@ + va + "!\nIDs: "@ + joined_ids(ids) =~= "Waypoints succesfully "@ + va + ("!\nIDs: "@ + joined_ids(ids)));
        assert("Waypoints succesfully "@ + vr + "!\nIDs: "@ + joined_ids(ids) =~= "Waypoints succesfully "@ + vr + ("!\nIDs: "@ + joined_ids(ids)));
    } else {
        let tail = ", which is weird :/\nAnyways, here are the IDs: "@ + joined_ids(ids);
        lemma_differ_after_prefix("Multiple Waypoints were "@, va, vr, tail, tail);
        assert("Multiple Waypoints were "@ + va + ", which is weird :/\nAnyways, here are the IDs: "@ + joined_ids(ids) =~= "Multiple Waypoints were "@ + va + tail);
        assert("Multiple Waypoints were "@ + vr + ", which is weird :/\nAnyways, here are the IDs: "@ + joined_ids(ids) =~= "Multiple Waypoints were "@ + vr + tail);
    }
    reveal_strlit("Approve");
    reveal_strlit("Reject");
    assert(noun(ApproveOrRejectEnum::Reject).len() > 0);
    lemma_differ_after_prefix("No Waypoints to "@, noun(ApproveOrRejectEnum::Approve), noun(ApproveOrRejectEnum::Reject), "!"@, "!"@);
}

/// The failure message of `approve` for a requested id or for all waypoints.
pub open spec fn approve_failure_text(id: Option<i32>) -> Seq<char> {
    match id {
        Some(_) => "Failed to approve Waypoint, or Waypoint ID is incorrect"@,
        None => "Failed to approve Waypoints"@,
    }
}

/// The report of `approve` says that approving failed exactly when the
/// database returned no ids, and otherwise lists every id that it returned.
pub proof fn approve_report_lists_ids(id: Option<i32>, ids: Seq<i32>)
    ensures
        (approve_report(id, ids) == approve_failure_text(id)) <==> ids.len() == 0,
        forall|j: int| 0 <= j < ids.len() ==> occurs_in(int_text(ids[j] as int), approve_report(id, ids)),
{
    reveal_strlit("Failed to approve Waypoint, or Waypoint ID is incorrect");
    reveal_strlit("Failed to approve Waypoints");
    reveal_strlit("Wapoint succesfully approved!\nNew Waypoint ID is #");
    reveal_strlit("It seems like multiple Waypoints were approved, which is weird :/\n                    Anyways, there are the new ID's: ");
    reveal_strlit("Waypoints approved!\nHere are the new ID's: ");
    let report = approve_report(id, ids);
    if ids.len() > 0 {
        assert(report[0] != approve_failure_text(id)[0]);
        assert forall|j: int| 0 <= j < ids.len() implies occurs_in(int_text(ids[j] as int), report) by {
            if ids.len() == 1 && id is Some {
                lemma_occurs_in_self(int_text(ids[0] as int));
                let before = "Wapoint succesfully approved!\nNew Waypoint ID is #"@;
                lemma_occurs_in_context(int_text(ids[0] as int), int_text(ids[0] as int), before, Seq::empty());
                assert(before + int_text(ids[0] as int) + Seq::<char>::empty() =~= report);
            } else {
                joined_ids_lists_every_id(ids, j);
                let before = if id is None {
                    "Waypoints approved!\nHere are the new ID's: "@
                } else {
                    "It seems like multiple Waypoints were approved, which is weird :/\n                    Anyways, there are the new ID's: "@
                };
                lemma_occurs_in_context(int_text(ids[j] as int), joined_ids(ids), before, Seq::empty());
                assert(before + joined_ids(ids) + Seq::<char>::empty() =~= report);
            }
        }
    }
}


/// `approve` without an id warns before it approves everything: it asks to
/// approve all pending waypoints only once the warning has been said, and
/// it enters the warned stage only by saying something.
pub proof fn approve_all_is_warned_first(
    cmd: ModerationCommand,
    id: Option<i32>,
    stage: ModerationStage,
    event: ModerationEventView,
)
    ensures
        moderation_next(ModerationCommand::Approve, None, stage, event).1 is ApprovePending ==> stage
            == ModerationStage::Warned && event == ModerationEventView::Said,
        moderation_next(cmd, id, stage, event).0 == ModerationStage::Warned ==> moderation_next(
            cmd,
            id,
            stage,
            event,
        ).1 is Say,
{
}


/// Once the member may moderate, a command with an id goes on to the
/// database unless the database said that nothing is pending: a failed check
/// counts as pending. `reject` is the exception: it never changes anything.
pub proof fn failed_pending_check_counts_as_pending(cmd: ModerationCommand, id: i32, found: Option<bool>)
    ensures
        cmd != ModerationCommand::Reject ==> (changes_database(
            moderation_next(cmd, Some(id), ModerationStage::CheckingPending, ModerationEventView::PendingChecked(found)).1,
        ) <==> found != Some(false)),
        found == Some(false) ==> moderation_next(
            cmd,
            Some(id),
            ModerationStage::CheckingPending,
            ModerationEventView::PendingChecked(found),
        ).1 == ModerationActionView::Say(nothing_pending_text(cmd)),
{
}

} // verus!
