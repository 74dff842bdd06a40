use waypoints_bot::commands::utils::zero_admin_role_check;
use waypoints_bot::commands::utils::{
    approve_or_reject_pending_waypoints, has_permission, ApproveOrRejectEnum, MemberAccess, ModerationAction,
    ModerationEvent, ModerationStage,
};
use waypoints_bot::commands::waypoints::{approve, reject};

fn member(administrator: bool, roles: Vec<u64>) -> Option<MemberAccess> {
    Some(MemberAccess { administrator, role_ids: roles })
}

#[test]
fn permission_of_non_members_and_admins() {
    assert!(!has_permission(&None, &Some("5".to_string())));
    assert!(has_permission(&member(true, vec![]), &None));
    assert!(!has_permission(&member(false, vec![5]), &None));
    assert!(has_permission(&member(true, vec![]), &Some("5".to_string())));
    assert!(has_permission(&member(true, vec![]), &Some("0".to_string())));
}

#[test]
fn permission_through_the_admin_role() {
    assert!(has_permission(&member(false, vec![1, 5]), &Some("5".to_string())));
    assert!(has_permission(&member(false, vec![5]), &Some("+5".to_string())));
    assert!(!has_permission(&member(false, vec![1, 6]), &Some("5".to_string())));
    assert!(!has_permission(&member(false, vec![5]), &Some(" 5".to_string())));
    assert!(!has_permission(&member(false, vec![5]), &Some("not a number".to_string())));
}

#[test]
fn verbs_and_nouns() {
    assert_eq!(ApproveOrRejectEnum::Approve.to_verb(), "Approved");
    assert_eq!(ApproveOrRejectEnum::Reject.to_verb(), "Rejected");
    assert_eq!(ApproveOrRejectEnum::Approve.to_noun(), "Approve");
    assert_eq!(ApproveOrRejectEnum::Reject.to_noun(), "Reject");
}

/// What a scripted run of a moderation command did.
#[derive(Debug, PartialEq)]
enum Done {
    CheckPermission,
    CheckPending,
    Say(String),
    Approve(Option<i32>),
    Reject(Option<i32>),
}

/// Runs a moderation step function against scripted answers.
fn drive(
    step: &dyn Fn(ModerationStage, ModerationEvent) -> (ModerationStage, ModerationAction),
    permitted: bool,
    pending: Option<bool>,
    applied: Vec<i32>,
) -> Vec<Done> {
    let mut done = Vec::new();
    let mut stage = ModerationStage::Start;
    let mut event = ModerationEvent::Begin;
    for _ in 0..20 {
        let (next, action) = step(stage, event);
        stage = next;
        event = match action {
            ModerationAction::CheckPermission => {
                done.push(Done::CheckPermission);
                ModerationEvent::PermissionChecked(permitted)
            }
            ModerationAction::CheckPending => {
                done.push(Done::CheckPending);
                ModerationEvent::PendingChecked(pending)
            }
            ModerationAction::Say(s) => {
                done.push(Done::Say(s));
                ModerationEvent::Said
            }
            ModerationAction::ApprovePending(id) => {
                done.push(Done::Approve(id));
                ModerationEvent::Applied(applied.clone())
            }
            ModerationAction::RejectPending(id) => {
                done.push(Done::Reject(id));
                ModerationEvent::Applied(applied.clone())
            }
            ModerationAction::Finish => return done,
        };
    }
    panic!("the command did not finish");
}

fn say(s: &str) -> Done {
    Done::Say(s.to_string())
}

#[test]
fn no_permission_stops_every_command() {
    let aor = |s, e| approve_or_reject_pending_waypoints(Some(3), ApproveOrRejectEnum::Approve, s, e);
    let expected = vec![Done::CheckPermission, say("You don't have permissions to perform this operation!")];
    assert_eq!(drive(&aor, false, Some(true), vec![3]), expected);
    assert_eq!(drive(&|s, e| approve(Some(3), s, e), false, Some(true), vec![3]), expected);
    assert_eq!(drive(&|s, e| reject(None, s, e), false, Some(true), vec![]), expected);
}

#[test]
fn nothing_pending() {
    let aor = |s, e| approve_or_reject_pending_waypoints(Some(3), ApproveOrRejectEnum::Reject, s, e);
    assert_eq!(
        drive(&aor, true, Some(false), vec![]),
        vec![Done::CheckPermission, Done::CheckPending, say("No Waypoints to Reject!")]
    );
    assert_eq!(
        drive(&|s, e| approve(None, s, e), true, Some(false), vec![]),
        vec![Done::CheckPermission, Done::CheckPending, say("No Waypoints to approve!")]
    );
    assert_eq!(
        drive(&|s, e| reject(Some(1), s, e), true, Some(false), vec![]),
        vec![Done::CheckPermission, Done::CheckPending, say("No Waypoints to approve!")]
    );
}

#[test]
fn a_failed_pending_check_counts_as_pending() {
    let aor = |s, e| approve_or_reject_pending_waypoints(Some(3), ApproveOrRejectEnum::Approve, s, e);
    assert_eq!(
        drive(&aor, true, None, vec![17]),
        vec![
            Done::CheckPermission,
            Done::CheckPending,
            Done::Approve(Some(3)),
            say("Waypoint succesfully Approved!\nNew Waypoint ID: 17"),
        ]
    );
}

#[test]
fn approve_or_reject_reports() {
    let reject_one = |s, e| approve_or_reject_pending_waypoints(Some(4), ApproveOrRejectEnum::Reject, s, e);
    assert_eq!(
        drive(&reject_one, true, Some(true), vec![4]),
        vec![
            Done::CheckPermission,
            Done::CheckPending,
            Done::Reject(Some(4)),
            say("Waypoint succesfully Rejected!\nRejected Pending Waypoint ID: 4"),
        ]
    );
    assert_eq!(
        drive(&reject_one, true, Some(true), vec![]).last(),
        Some(&say("No Waypoints were $Rejected!"))
    );
    assert_eq!(
        drive(&reject_one, true, Some(true), vec![4, 5]).last(),
        Some(&say("Multiple Waypoints were Rejected, which is weird :/\nAnyways, here are the IDs: 4, 5"))
    );
}

#[test]
fn approve_or_reject_without_id_only_warns() {
    let all = |s, e| approve_or_reject_pending_waypoints(None, ApproveOrRejectEnum::Approve, s, e);
    assert_eq!(
        drive(&all, true, Some(true), vec![1, 2]),
        vec![
            Done::CheckPermission,
            Done::CheckPending,
            say("**Warning!** All Waypoints will be Approved.\nProceed?"),
        ]
    );
}

#[test]
fn approve_one() {
    let one = |s, e| approve(Some(9), s, e);
    assert_eq!(
        drive(&one, true, Some(true), vec![21]),
        vec![
            Done::CheckPermission,
            Done::CheckPending,
            Done::Approve(Some(9)),
            say("Wapoint succesfully approved!\nNew Waypoint ID is #21"),
        ]
    );
    assert_eq!(
        drive(&one, true, Some(true), vec![]).last(),
        Some(&say("Failed to approve Waypoint, or Waypoint ID is incorrect"))
    );
    assert_eq!(
        drive(&one, true, Some(true), vec![21, 22]).last(),
        Some(&say(
            "It seems like multiple Waypoints were approved, which is weird :/\n                    Anyways, there are the new ID's: 21, 22"
        ))
    );
}

#[test]
fn approve_all_after_warning() {
    let all = |s, e| approve(None, s, e);
    assert_eq!(
        drive(&all, true, Some(true), vec![1, 2, 3]),
        vec![
            Done::CheckPermission,
            Done::CheckPending,
            say("**Warning!** All Waypoints will be approved.\nProceed?"),
            Done::Approve(None),
            say("Waypoints approved!\nHere are the new ID's: 1, 2, 3"),
        ]
    );
    assert_eq!(drive(&all, true, Some(true), vec![]).last(), Some(&say("Failed to approve Waypoints")));
}

#[test]
fn reject_is_not_implemented() {
    assert_eq!(
        drive(&|s, e| reject(Some(2), s, e), true, Some(true), vec![2]),
        vec![
            Done::CheckPermission,
            Done::CheckPending,
            say("*Sorry, this feature is not implemented (yet!)*"),
        ]
    );
}

#[test]
fn unexpected_events_end_the_command() {
    let (stage, action) = approve(Some(1), ModerationStage::Start, ModerationEvent::Said);
    assert_eq!(stage, ModerationStage::Done);
    assert!(matches!(action, ModerationAction::Finish));
}

#[test]
fn zero_admin_role_is_detected() {
    assert!(zero_admin_role_check(&member(false, vec![]), &Some("0".to_string())));
    assert!(zero_admin_role_check(&member(false, vec![]), &Some("+000".to_string())));
    assert!(!zero_admin_role_check(&member(true, vec![]), &Some("0".to_string())));
    assert!(!zero_admin_role_check(&None, &Some("0".to_string())));
    assert!(!zero_admin_role_check(&member(false, vec![]), &Some("5".to_string())));
    assert!(!zero_admin_role_check(&member(false, vec![]), &None));
}
