use waypoints_bot::db::completed_from_columns;
use waypoints_bot::db::{insert_pending_waypoint, pending_from_row, pending_from_rows, select_waypoints, PendingWaypointRow, QueryPart, WAYPOINTS_QUERY};
use waypoints_bot::models::{PendingWaypoint, PendingWaypointAction};

fn describe(parts: &[QueryPart]) -> Vec<String> {
    parts
        .iter()
        .map(|p| match p {
            QueryPart::Sql(s) => format!("sql:{}", s),
            QueryPart::BindInt(v) => format!("int:{}", v),
            QueryPart::BindBool(v) => format!("bool:{}", v),
        })
        .collect()
}

#[test]
fn waypoints_query_without_filters() {
    let parts = select_waypoints(None, None);
    assert_eq!(describe(&parts), vec![format!("sql:{}", WAYPOINTS_QUERY), "sql: order by id".to_string()]);
    assert!(WAYPOINTS_QUERY.ends_with("where 1=1 "));
}

#[test]
fn waypoints_query_with_both_filters() {
    let parts = select_waypoints(Some(2), Some(false));
    assert_eq!(
        describe(&parts),
        vec![
            format!("sql:{}", WAYPOINTS_QUERY),
            "sql: and dimension = ".to_string(),
            "int:2".to_string(),
            "sql: and completed = ".to_string(),
            "bool:false".to_string(),
            "sql: order by id".to_string(),
        ]
    );
    let parts = select_waypoints(None, Some(true));
    assert_eq!(describe(&parts)[1..], ["sql: and completed = ".to_string(), "bool:true".to_string(), "sql: order by id".to_string()]);
}

fn pending(dimension: Option<&str>, completed: Option<Option<bool>>) -> PendingWaypoint {
    PendingWaypoint {
        id: 0,
        action: PendingWaypointAction::Edit,
        author_name: "alex".to_string(),
        author_id: "7".to_string(),
        waypoint_id: Some(5),
        x: Some(1),
        y: None,
        z: Some(3),
        name: Some("Base".to_string()),
        dimension: dimension.map(|d| d.to_string()),
        completed,
    }
}

#[test]
fn insert_values_of_a_pending_waypoint() {
    let ins = insert_pending_waypoint(&pending(Some("The End"), Some(None)), Some(3)).unwrap();
    assert_eq!(ins.action, "Edit");
    assert_eq!(ins.author_name, "alex");
    assert_eq!(ins.author_id, "7");
    assert_eq!(ins.waypoint_id, Some(5));
    assert_eq!(ins.name.as_deref(), Some("Base"));
    assert_eq!((ins.x, ins.y, ins.z), (Some(1), None, Some(3)));
    assert_eq!(ins.dimension, Some(3));
    assert_eq!((ins.completed_changed, ins.completed_value), (true, None));
}

#[test]
fn insert_without_dimension_or_completion_change() {
    let ins = insert_pending_waypoint(&pending(None, None), Some(9)).unwrap();
    assert_eq!(ins.dimension, None);
    assert_eq!((ins.completed_changed, ins.completed_value), (false, None));
    let ins = insert_pending_waypoint(&pending(None, Some(Some(true))), None).unwrap();
    assert_eq!((ins.completed_changed, ins.completed_value), (true, Some(true)));
}

#[test]
fn insert_with_unknown_dimension() {
    match insert_pending_waypoint(&pending(Some("The Moon"), None), None) {
        Err(e) => assert_eq!(e, "Couldn't find dimension 'The Moon' in database"),
        Ok(_) => panic!("an error was expected"),
    }
}

#[test]
fn completion_change_reads_back() {
    for c in [None, Some(None), Some(Some(true)), Some(Some(false))] {
        let ins = insert_pending_waypoint(&pending(None, c), None).unwrap();
        assert_eq!(completed_from_columns(ins.completed_changed, ins.completed_value), c);
    }
}

fn row(id: i32, action: &str, changed: bool, value: Option<bool>) -> PendingWaypointRow {
    PendingWaypointRow {
        id,
        action: action.to_string(),
        author_name: "alex".to_string(),
        author_id: "7".to_string(),
        waypoint_id: None,
        name: Some("Base".to_string()),
        x: Some(1),
        y: Some(2),
        z: None,
        dimension_name: Some("The End".to_string()),
        completed_changed: changed,
        completed_value: value,
    }
}

#[test]
fn rows_read_as_pending_waypoints() {
    let p = pending_from_row(row(4, "Delete", true, Some(false))).unwrap();
    assert_eq!(p.id, 4);
    assert_eq!(p.action, PendingWaypointAction::Delete);
    assert_eq!((p.author_name.as_str(), p.author_id.as_str()), ("alex", "7"));
    assert_eq!(p.name.as_deref(), Some("Base"));
    assert_eq!((p.x, p.y, p.z), (Some(1), Some(2), None));
    assert_eq!(p.dimension.as_deref(), Some("The End"));
    assert_eq!(p.completed, Some(Some(false)));
    assert_eq!(pending_from_row(row(5, "Add", false, Some(true))).unwrap().completed, None);
}

#[test]
fn unreadable_rows_are_left_out_and_reported() {
    match pending_from_row(row(9, "Move", false, None)) {
        Err(e) => assert_eq!(e, "Failed converting pending waypoint #9 to PendingWaypoint: unknown action 'Move'"),
        Ok(_) => panic!("an error was expected"),
    }
    let (pending, errors) = pending_from_rows(vec![row(1, "Add", false, None), row(2, "add", false, None), row(3, "Edit", false, None)]);
    assert_eq!(pending.iter().map(|p| p.id).collect::<Vec<_>>(), vec![1, 3]);
    assert_eq!(errors, vec!["Failed converting pending waypoint #2 to PendingWaypoint: unknown action 'add'".to_string()]);
    let (pending, errors) = pending_from_rows(vec![]);
    assert!(pending.is_empty() && errors.is_empty());
}
