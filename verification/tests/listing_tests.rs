use waypoints_bot::commands::waypoints::{add, help, list, pending, ListReply, PendingReply, ADDED_TEXT, HELP_TEXT};
use waypoints_bot::commands::{hello, waypoints};
use waypoints_bot::models::{DimensionEnum, PendingWaypointAction, Waypoint};

fn waypoint(id: i32) -> Waypoint {
    Waypoint {
        id,
        x: id,
        y: 64,
        z: -id,
        name: format!("W{}", id),
        dimension: "The Nether".to_string(),
        completed: if id % 2 == 0 { Some(true) } else { None },
    }
}

fn pages(reply: ListReply) -> Vec<String> {
    match reply {
        ListReply::Pages(p) => p,
        ListReply::Say(s) => panic!("expected pages, got {:?}", s),
    }
}

#[test]
fn list_in_pages_of_eight() {
    let ws: Vec<Waypoint> = (1..=9).map(waypoint).collect();
    let p = pages(list(Ok(ws), None, None));
    assert_eq!(p.len(), 2);
    let mut first = "## Waypoints\nPage 1/2".to_string();
    for id in 1..=8 {
        first.push('\n');
        first.push_str(&waypoint(id).to_embed_text(true, true));
    }
    assert_eq!(p[0], first);
    assert_eq!(p[1], "## Waypoints\nPage 2/2\n**W9** \\#9 \n9 / 64 / -9\n*The Nether*");
}

#[test]
fn list_with_filters() {
    let ws = vec![waypoint(2)];
    let p = pages(list(Ok(ws), Some(DimensionEnum::Nether), Some(true)));
    assert_eq!(p, vec!["## Waypoints\nDimension: *The Nether*\nOnly *Completed* entries\nPage 1/1\n**W2** \\#2 \n2 / 64 / -2".to_string()]);
    let p = pages(list(Ok(vec![waypoint(3)]), None, Some(false)));
    assert_eq!(p, vec!["## Waypoints\nOnly *Not Completed* entries\nPage 1/1\n**W3** \\#3 \n3 / 64 / -3\n*The Nether*".to_string()]);
}

#[test]
fn list_of_exactly_sixteen_has_two_full_pages() {
    let ws: Vec<Waypoint> = (1..=16).map(waypoint).collect();
    let p = pages(list(Ok(ws), None, None));
    assert_eq!(p.len(), 2);
    assert!(p[1].starts_with("## Waypoints\nPage 2/2\n**W9**"));
    assert!(p[1].ends_with("**W16** \\#16 *(Completed)*\n16 / 64 / -16\n*The Nether*"));
    // every waypoint shows up on page i / 8
    for i in 0..16 {
        assert!(p[i / 8].contains(&format!("**W{}** ", i + 1)));
    }
}

#[test]
fn list_of_nothing_or_an_error() {
    match list(Ok(vec![]), None, None) {
        ListReply::Say(s) => assert_eq!(s, "No waypoints found!"),
        ListReply::Pages(_) => panic!("no pages expected"),
    }
    match list(Err("connection refused".to_string()), None, None) {
        ListReply::Say(s) => assert_eq!(s, "Failed getting waypoints: connection refused"),
        ListReply::Pages(_) => panic!("no pages expected"),
    }
}

#[test]
fn pending_replies() {
    match pending(&vec![]) {
        PendingReply::Say(s) => assert_eq!(s, "The are no Pending Waypoints!"),
        PendingReply::Embed(_) => panic!("no embed expected"),
    }
    let first = add("Home".to_string(), 0, 63, 0, DimensionEnum::Overworld, None, "steve".to_string(), "42".to_string());
    let mut second = add("Farm".to_string(), 1, 2, 3, DimensionEnum::End, Some(false), "alex".to_string(), "7".to_string());
    second.id = 12;
    second.action = PendingWaypointAction::Delete;
    assert_eq!(first.to_embed_text(), "**Add** \\#0");
    match pending(&vec![first, second]) {
        PendingReply::Embed(s) => assert_eq!(s, "## Pending Waypoints\n Results: 2\n**Add** \\#0\n**Delete** \\#12"),
        PendingReply::Say(_) => panic!("embed expected"),
    }
}

#[test]
fn add_makes_a_pending_addition() {
    let p = add("Gold farm".to_string(), -500, 127, -500, DimensionEnum::Nether, Some(true), "steve".to_string(), "42".to_string());
    assert_eq!(p.id, 0);
    assert_eq!(p.action, PendingWaypointAction::Add);
    assert_eq!(p.author_name, "steve");
    assert_eq!(p.author_id, "42");
    assert_eq!(p.waypoint_id, None);
    assert_eq!((p.x, p.y, p.z), (Some(-500), Some(127), Some(-500)));
    assert_eq!(p.name.as_deref(), Some("Gold farm"));
    assert_eq!(p.dimension.as_deref(), Some("The Nether"));
    assert_eq!(p.completed, Some(Some(true)));
    assert!(ADDED_TEXT.starts_with("Created new Waypoint!\n"));
}

#[test]
fn help_text() {
    assert_eq!(help(), HELP_TEXT);
    assert!(help().starts_with("## Waypoints help\n**Available commands:**\n"));
}

#[test]
fn hello_greets() {
    assert_eq!(hello(), "Hello, World!");
}

#[test]
fn overview_in_messages_of_1900_chars() {
    let entries: Vec<String> = (0..300).map(|i| format!("waypoint number {}", i)).collect();
    let mut text = format!("Waypoints ({}):", entries.len());
    for e in &entries {
        text.push_str(&format!("\n  {}", e));
    }
    let messages = waypoints(Ok(entries));
    assert!(messages.len() > 1);
    assert_eq!(messages.concat(), text);
    for m in &messages[..messages.len() - 1] {
        assert_eq!(m.chars().count(), 1900);
    }
    assert!(messages.last().unwrap().chars().count() <= 1900);
}

#[test]
fn overview_of_nothing_or_an_error() {
    assert_eq!(waypoints(Ok(vec![])), vec!["No waypoints found!".to_string()]);
    assert_eq!(waypoints(Err("timeout".to_string())), vec!["Failed getting waypoints: timeout".to_string()]);
    assert_eq!(waypoints(Ok(vec!["a".to_string()])), vec!["Waypoints (1):\n  a".to_string()]);
}
