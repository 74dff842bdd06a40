use waypoints_bot::models::{DimensionEnum, PendingWaypointAction, Waypoint};

fn home() -> Waypoint {
    Waypoint {
        id: 12,
        x: -500,
        y: 63,
        z: 0,
        name: "Home".to_string(),
        dimension: "The Overworld".to_string(),
        completed: Some(true),
    }
}

#[test]
fn embed_text_with_everything() {
    assert_eq!(home().to_embed_text(true, true), "**Home** \\#12 *(Completed)*\n-500 / 63 / 0\n*The Overworld*");
}

#[test]
fn embed_text_without_mark_or_dimension() {
    assert_eq!(home().to_embed_text(false, false), "**Home** \\#12 \n-500 / 63 / 0");
}

#[test]
fn embed_text_of_an_uncompleted_waypoint() {
    let mut w = home();
    w.completed = Some(false);
    assert_eq!(w.to_embed_text(true, false), "**Home** \\#12 \n-500 / 63 / 0");
    w.completed = None;
    assert_eq!(w.to_embed_text(true, true), "**Home** \\#12 \n-500 / 63 / 0\n*The Overworld*");
}

#[test]
fn dimension_names() {
    assert_eq!(DimensionEnum::Overworld.to_string(), "The Overworld");
    assert_eq!(DimensionEnum::Nether.to_string(), "The Nether");
    assert_eq!(DimensionEnum::End.to_string(), "The End");
}

#[test]
fn action_names() {
    assert_eq!(PendingWaypointAction::Add.to_string(), "Add");
    assert_eq!(PendingWaypointAction::Edit.to_string(), "Edit");
    assert_eq!(PendingWaypointAction::Delete.to_string(), "Delete");
}

#[test]
fn action_names_read_back() {
    for a in [PendingWaypointAction::Add, PendingWaypointAction::Edit, PendingWaypointAction::Delete] {
        assert_eq!(PendingWaypointAction::from_name(&a.to_string()), Some(a));
    }
    assert_eq!(PendingWaypointAction::from_name("add"), None);
    assert_eq!(PendingWaypointAction::from_name(""), None);
    assert_eq!(PendingWaypointAction::from_name("Deleted"), None);
}
