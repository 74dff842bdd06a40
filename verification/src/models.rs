use vstd::prelude::*;
use crate::text::{i32_text, int_text, lemma_occurs_in_context, lemma_occurs_in_self, occurs_in, same_text};

verus! {

/// A dimension as stored in the database.
pub struct Dimension {
    pub id: i32,
    pub name: String,
}

/// A waypoint as read from the database.
pub struct Waypoint {
    pub id: i32,
    pub x: i32,
    pub y: i32,
    pub z: i32,
    pub name: String,
    pub dimension: String,
    pub completed: Option<bool>,
}

/// The embed text of a waypoint: its name in bold and its number; then the
/// completion mark, added after the number exactly when it is asked for and
/// the waypoint is completed; its coordinates on a line of their own; and,
/// when asked for, its dimension in italics on a last line.
pub open spec fn embed_text(w: Waypoint, show_completed: bool, show_dimension: bool) -> Seq<char> {
    "**"@ + w.name@ + "** \\#"@ + int_text(w.id as int) + " "@
        + (if w.completed == Some(true) && show_completed { "*(Completed)*"@ } else { Seq::empty() })
        + "\n"@ + int_text(w.x as int) + " / "@ + int_text(w.y as int) + " / "@ + int_text(w.z as int)
        + (if show_dimension { "\n*"@ + w.dimension@ + "*"@ } else { Seq::empty() })
}

/// The start of a waypoint's embed text: its name in bold and its number.
pub open spec fn embed_head(w: Waypoint) -> Seq<char> {
    "**"@ + w.name@ + "** \\#"@ + int_text(w.id as int) + " "@
}

/// The completion mark follows a waypoint's number exactly when it is asked
/// for and the waypoint is completed; otherwise the line break before the
/// coordinates comes right after the number. The dimension never affects
/// this.
pub proof fn embed_text_marks_completion(w: Waypoint, show_completed: bool, show_dimension: bool)
    ensures
        embed_text(w, show_completed, show_dimension).len() > embed_head(w).len(),
        embed_text(w, show_completed, show_dimension).take(embed_head(w).len() as int) == embed_head(w),
        (w.completed == Some(true) && show_completed) <==> embed_text(w, show_completed, show_dimension).len()
            >= embed_head(w).len() + 13 && embed_text(w, show_completed, show_dimension).subrange(
            embed_head(w).len() as int,
            embed_head(w).len() as int + 13,
        ) == "*(Completed)*"@,
        !(w.completed == Some(true) && show_completed) ==> embed_text(w, show_completed, show_dimension)[embed_head(
            w,
        ).len() as int] == '\n',
{
    reveal_strlit("*(Completed)*");
    reveal_strlit("\n");
    let t = embed_text(w, show_completed, show_dimension);
    let h = embed_head(w);
    let n = h.len() as int;
    let marked = w.completed == Some(true) && show_completed;
    let mark = if marked { "*(Completed)*"@ } else { Seq::<char>::empty() };
    let rest = "\n"@ + int_text(w.x as int) + " / "@ + int_text(w.y as int) + " / "@ + int_text(w.z as int)
        + (if show_dimension { "\n*"@ + w.dimension@ + "*"@ } else { Seq::empty() });
    assert(t =~= h + (mark + rest));
    assert(rest[0] == '\n');
    assert(t.take(n) =~= h);
    if marked {
        assert(t.subrange(n, n + 13) =~= "*(Completed)*"@);
    } else {
        assert(t[n] == '\n');
        if t.len() >= n + 13 {
            assert(t.subrange(n, n + 13)[0] == '\n');
            assert("*(Completed)*"@[0] == '*');
        }
    }
}

impl Waypoint {
    /// Renders the waypoint for an embed.
    pub fn to_embed_text(&self, show_completed: bool, show_dimension: bool) -> (text: String)
        ensures
            text@ == embed_text(*self, show_completed, show_dimension),
    {
        let mut text = String::new();
        text.append("**");
        text.append(self.name.as_str());
        text.append("** \\#");
        let id = i32_text(self.id);
        text.append(id.as_str());
        text.append(" ");
        let ghost head = text@;

        let completed = match self.completed {
            Some(val) => val,
            None => false,
        };
        if completed && show_completed {
            text.append("*(Completed)*");
        }
        let ghost with_mark = text@;

        let x = i32_text(self.x);
        let y = i32_text(self.y);
        let z = i32_text(self.z);
        text.append("\n");
        text.append(x.as_str());
        text.append(" / ");
        text.append(y.as_str());
        text.append(" / ");
        text.append(z.as_str());
        let ghost with_coords = text@;

        if show_dimension {
            text.append("\n*");
            text.append(self.dimension.as_str());
            text.append("*");
        }
        proof {
            let mark = if self.completed == Some(true) && show_completed { "*(Completed)*"@ } else { Seq::<char>::empty() };
            assert(with_mark =~= head + mark);
        }
        assert(text@ =~= embed_text(*self, show_completed, show_dimension));
        text
    }
}

/// The dimensions a waypoint can be in.
#[derive(Clone, Copy, Debug, PartialEq, Eq)]
pub enum DimensionEnum {
    Overworld,
    Nether,
    End,
}

/// The display name of a dimension.
pub open spec fn dimension_name(d: DimensionEnum) -> Seq<char> {
    match d {
        DimensionEnum::Overworld => "The Overworld"@,
        DimensionEnum::Nether => "The Nether"@,
        DimensionEnum::End => "The End"@,
    }
}

impl DimensionEnum {
    /// The display name of the dimension, which is also its name in the
    /// database.
    pub fn to_string(&self) -> (s: String)
        ensures
            s@ == dimension_name(*self),
    {
        let val = match self {
            DimensionEnum::Overworld => "The Overworld",
            DimensionEnum::Nether => "The Nether",
            DimensionEnum::End => "The End",
        };
        val.to_owned()
    }
}

/// What a pending waypoint asks for.
#[derive(Clone, Copy, Debug, PartialEq, Eq)]
pub enum PendingWaypointAction {
    Add,
    Edit,
    Delete,
}

/// The display name of a pending action, which is also how it is stored.
pub open spec fn action_name(a: PendingWaypointAction) -> Seq<char> {
    match a {
        PendingWaypointAction::Add => "Add"@,
        PendingWaypointAction::Edit => "Edit"@,
        PendingWaypointAction::Delete => "Delete"@,
    }
}

impl PendingWaypointAction {
    /// The display name of the action.
    pub fn to_string(&self) -> (s: String)
        ensures
            s@ == action_name(*self),
    {
        let val = match self {
            PendingWaypointAction::Add => "Add",
            PendingWaypointAction::Edit => "Edit",
            PendingWaypointAction::Delete => "Delete",
        };
        val.to_owned()
    }
}

/// The action stored under the name `name`, if any.
pub open spec fn action_named(name: Seq<char>) -> Option<PendingWaypointAction> {
    if name == "Add"@ {
        Some(PendingWaypointAction::Add)
    } else if name == "Edit"@ {
        Some(PendingWaypointAction::Edit)
    } else if name == "Delete"@ {
        Some(PendingWaypointAction::Delete)
    } else {
        None
    }
}

impl PendingWaypointAction {
    /// The action with the given display name, as the database stores it.
    pub fn from_name(name: &str) -> (action: Option<PendingWaypointAction>)
        ensures
            action == action_named(name@),
            action matches Some(a) ==> action_name(a) == name@,
            action is None ==> forall|a: PendingWaypointAction| action_name(a) != name@,
    {
        if same_text(name, "Add") {
            Some(PendingWaypointAction::Add)
        } else if same_text(name, "Edit") {
            Some(PendingWaypointAction::Edit)
        } else if same_text(name, "Delete") {
            Some(PendingWaypointAction::Delete)
        } else {
            proof {
                assert forall|a: PendingWaypointAction| action_name(a) != name@ by {
                    match a {
                        PendingWaypointAction::Add => {},
                        PendingWaypointAction::Edit => {},
                        PendingWaypointAction::Delete => {},
                    }
                }
            }
            None
        }
    }
}

/// Every action is stored under a name of its own: reading back the name
/// that an action is written as gives that action.
pub proof fn action_names_are_distinct(a: PendingWaypointAction, b: PendingWaypointAction)
    ensures
        action_name(a) == action_name(b) ==> a == b,
{
    reveal_strlit("Add");
    reveal_strlit("Edit");
    reveal_strlit("Delete");
    assert("Add"@[0] != "Edit"@[0]);
    assert("Add"@[0] != "Delete"@[0]);
    assert("Edit"@[0] != "Delete"@[0]);
}

/// A change to the waypoints that waits for an administrator's approval.
/// The fields after `waypoint_id` are the new values; `None` leaves a value
/// as it is. `completed` is `Some(c)` when the completion state is to become
/// `c` (itself optional).
pub struct PendingWaypoint {
    pub id: i32,
    pub action: PendingWaypointAction,
    pub author_name: String,
    pub author_id: String,
    pub waypoint_id: Option<i32>,
    pub x: Option<i32>,
    pub y: Option<i32>,
    pub z: Option<i32>,
    pub name: Option<String>,
    pub dimension: Option<String>,
    pub completed: Option<Option<bool>>,
}

/// The embed text of a pending waypoint: what it asks for, in bold, and its
/// number.
pub open spec fn pending_embed_text(p: PendingWaypoint) -> Seq<char> {
    "**"@ + action_name(p.action) + "** \\#"@ + int_text(p.id as int)
}

impl PendingWaypoint {
    /// Renders the pending waypoint for an embed.
    pub fn to_embed_text(&self) -> (text: String)
        ensures
            text@ == pending_embed_text(*self),
    {
        let mut text = String::new();
        text.append("**");
        let action = self.action.to_string();
        text.append(action.as_str());
        text.append("** \\#");
        let id = i32_text(self.id);
        text.append(id.as_str());
        text
    }
}

/// The bot's shared data.
pub struct Data {}


/// A waypoint's embed text shows its coordinates in the order x, y, z on a
/// line of their own, and ends with its dimension in italics exactly when
/// the dimension is asked for (otherwise with its z coordinate).
pub proof fn embed_text_shows_place(w: Waypoint, show_completed: bool, show_dimension: bool)
    ensures
        occurs_in(
            "\n"@ + int_text(w.x as int) + " / "@ + int_text(w.y as int) + " / "@ + int_text(w.z as int),
            embed_text(w, show_completed, show_dimension),
        ),
        show_dimension ==> embed_text(w, show_completed, show_dimension).len() >= w.dimension@.len() + 3
            && embed_text(w, show_completed, show_dimension).subrange(
            embed_text(w, show_completed, show_dimension).len() - w.dimension@.len() - 3,
            embed_text(w, show_completed, show_dimension).len() as int,
        ) == "\n*"@ + w.dimension@ + "*"@,
        !show_dimension ==> embed_text(w, show_completed, show_dimension).len() >= int_text(w.z as int).len()
            && embed_text(w, show_completed, show_dimension).subrange(
            embed_text(w, show_completed, show_dimension).len() - int_text(w.z as int).len(),
            embed_text(w, show_completed, show_dimension).len() as int,
        ) == int_text(w.z as int),
{
    reveal_strlit("\n*");
    reveal_strlit("*");
    let t = embed_text(w, show_completed, show_dimension);
    let coords = "\n"@ + int_text(w.x as int) + " / "@ + int_text(w.y as int) + " / "@ + int_text(w.z as int);
    let mark = if w.completed == Some(true) && show_completed { "*(Completed)*"@ } else { Seq::<char>::empty() };
    let dim = if show_dimension { "\n*"@ + w.dimension@ + "*"@ } else { Seq::<char>::empty() };
    let before = embed_head(w) + mark;
    assert(t =~= before + coords + dim);
    lemma_occurs_in_self(coords);
    lemma_occurs_in_context(coords, coords, before, dim);
    if show_dimension {
        assert(t.subrange(t.len() - dim.len(), t.len() as int) =~= dim);
    } else {
        let z = int_text(w.z as int);
        let front = before + ("\n"@ + int_text(w.x as int) + " / "@ + int_text(w.y as int) + " / "@);
        assert(t =~= front + z);
        assert(t.subrange(t.len() - z.len(), t.len() as int) =~= z);
    }
}

/// The three dimensions have different names.
pub proof fn dimension_names_are_distinct(a: DimensionEnum, b: DimensionEnum)
    ensures
        dimension_name(a) == dimension_name(b) ==> a == b,
{
    reveal_strlit("The Overworld");
    reveal_strlit("The Nether");
    reveal_strlit("The End");
    assert("The Overworld"@[4] != "The Nether"@[4]);
    assert("The Overworld"@[4] != "The End"@[4]);
    assert("The Nether"@[4] != "The End"@[4]);
}

/// A pending waypoint's embed text names its action, in bold, and ends with
/// its number.
pub proof fn pending_embed_text_names_action_and_number(p: PendingWaypoint)
    ensures
        pending_embed_text(p).take(action_name(p.action).len() as int + 2) == "**"@ + action_name(p.action),
        pending_embed_text(p).len() >= int_text(p.id as int).len(),
        pending_embed_text(p).subrange(
            pending_embed_text(p).len() - int_text(p.id as int).len(),
            pending_embed_text(p).len() as int,
        ) == int_text(p.id as int),
{
    let t = pending_embed_text(p);
    let front = "**"@ + action_name(p.action);
    let back = "** \\#"@ + int_text(p.id as int);
    assert(t =~= front + back);
    reveal_strlit("**");
    assert(front.len() == action_name(p.action).len() + 2);
    assert(t.take(front.len() as int) =~= front);
    let id = int_text(p.id as int);
    assert(t =~= (front + "** \\#"@) + id);
    assert(t.subrange(t.len() - id.len(), t.len() as int) =~= id);
}

} // verus!
