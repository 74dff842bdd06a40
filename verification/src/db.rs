use vstd::prelude::*;
use crate::models::{action_name, action_named, PendingWaypoint, PendingWaypointAction};
use crate::text::{i32_text, int_text, lemma_occurs_in_context, lemma_occurs_in_self, occurs_in, string_views};

verus! {

/// The query that looks up a dimension's id by its name.
pub const DIMENSION_ID_QUERY: &'static str = "select id from dimensions where name = $1";

/// The start of the query that selects waypoints; filters follow it.
pub const WAYPOINTS_QUERY: &'static str = "select 
            w.id id, 
            w.name name, 
            x, y, z, 
            d.name dimension, 
            completed
        from waypoints w 
        join dimensions d on w.dimension = d.id 
        where 1=1 ";

/// The query that stores a pending waypoint and returns its id.
pub const INSERT_PENDING_QUERY: &'static str = "insert into pending_waypoints
        (action, author_name, author_id, waypoint_id, name, x, y, z, dimension, completed_changed, completed_value) 
        values ($1, $2, $3, $4, $5, $6, $7, $8, $9, $10, $11)
        returning id";

/// The query that tells whether any waypoint is pending.
pub const HAS_PENDING_QUERY: &'static str = "select exists(select 1 from pending_waypoints)";

/// The query that reads the pending waypoints, each with its dimension's
/// name, in the order of their ids.
pub const SELECT_PENDING_QUERY: &'static str = "select p.id, p.action, p.author_name, p.author_id, p.waypoint_id, p.name, p.x, p.y, p.z,
    d.name dimension_name, p.completed_changed, p.completed_value
from pending_waypoints p
left join dimensions d on p.dimension = d.id
order by p.id";

/// The query that turns pending additions (the one with id `$1`, or all of
/// them when `$1` is null) into waypoints and returns the new waypoints' ids.
pub const APPROVE_QUERY: &'static str = "with approved as (
    delete from pending_waypoints
    where action = 'Add' and ($1::int4 is null or id = $1)
    returning name, x, y, z, dimension, completed_value
)
insert into waypoints (name, x, y, z, dimension, completed)
select name, x, y, z, dimension, completed_value from approved
returning id";

/// The query that drops the pending waypoint with id `$1` (or all of them
/// when `$1` is null) and returns the dropped ids.
pub const REJECT_QUERY: &'static str = "delete from pending_waypoints where ($1::int4 is null or id = $1) returning id";

/// A piece of a query: SQL text, or a value bound to the next placeholder.
pub enum QueryPart {
    Sql(String),
    BindInt(i32),
    BindBool(bool),
}

/// A query piece with its text as a character sequence.
pub enum QueryPartView {
    Sql(Seq<char>),
    BindInt(i32),
    BindBool(bool),
}

impl View for QueryPart {
    type V = QueryPartView;

    open spec fn view(&self) -> QueryPartView {
        match self {
            QueryPart::Sql(s) => QueryPartView::Sql(s@),
            QueryPart::BindInt(v) => QueryPartView::BindInt(*v),
            QueryPart::BindBool(v) => QueryPartView::BindBool(*v),
        }
    }
}

/// The pieces of a query, as views.
pub open spec fn parts_view(parts: Seq<QueryPart>) -> Seq<QueryPartView> {
    parts.map_values(|p: QueryPart| p@)
}

/// The query that selects the waypoints, in the order of their ids: all of
/// them, or only those in the dimension with id `dimension_id`, or only those
/// whose completion state is `completed`, or both.
pub open spec fn waypoints_query(dimension_id: Option<i32>, completed: Option<bool>) -> Seq<QueryPartView> {
    seq![QueryPartView::Sql(WAYPOINTS_QUERY@)] + match dimension_id {
        Some(d) => seq![QueryPartView::Sql(" and dimension = "@), QueryPartView::BindInt(d)],
        None => Seq::empty(),
    } + match completed {
        Some(c) => seq![QueryPartView::Sql(" and completed = "@), QueryPartView::BindBool(c)],
        None => Seq::empty(),
    } + seq![QueryPartView::Sql(" order by id"@)]
}

/// Whether the query filters by `column` with the bound value `value`: the
/// text `" and <column> = "` followed by a placeholder bound to `value`.
pub open spec fn filters_by(q: Seq<QueryPartView>, column_text: Seq<char>, value: QueryPartView) -> bool {
    exists|k: int| 0 <= k && k + 1 < q.len() && #[trigger] q[k] == QueryPartView::Sql(column_text) && q[k + 1] == value
}

/// The waypoint query starts with the selection, ends with the ordering by
/// id, and filters by dimension `d` exactly when the dimension id `d` is
/// given and by completion state `c` exactly when `c` is given, each filter
/// independent of the other; it binds no other value.
pub proof fn waypoints_query_filters(dimension_id: Option<i32>, completed: Option<bool>)
    ensures
        waypoints_query(dimension_id, completed)[0] == QueryPartView::Sql(WAYPOINTS_QUERY@),
        waypoints_query(dimension_id, completed).last() == QueryPartView::Sql(" order by id"@),
        forall|d: i32|
            #[trigger] filters_by(waypoints_query(dimension_id, completed), " and dimension = "@, QueryPartView::BindInt(d))
                <==> dimension_id == Some(d),
        forall|c: bool|
            #[trigger] filters_by(waypoints_query(dimension_id, completed), " and completed = "@, QueryPartView::BindBool(c))
                <==> completed == Some(c),
        forall|k: int|
            0 <= k < waypoints_query(dimension_id, completed).len() ==> match #[trigger] waypoints_query(
                dimension_id,
                completed,
            )[k] {
                QueryPartView::BindInt(d) => dimension_id == Some(d),
                QueryPartView::BindBool(c) => completed == Some(c),
                QueryPartView::Sql(_) => true,
            },
{
    reveal_strlit(" and dimension = ");
    reveal_strlit(" and completed = ");
    reveal_strlit(" order by id");
    let dim = " and dimension = "@;
    let comp = " and completed = "@;
    assert(dim[5] != comp[5]);
    let q = waypoints_query(dimension_id, completed);
    let sel = QueryPartView::Sql(WAYPOINTS_QUERY@);
    let ord = QueryPartView::Sql(" order by id"@);
    match (dimension_id, completed) {
        (Some(d), Some(c)) => {
            assert(q =~= seq![sel, QueryPartView::Sql(dim), QueryPartView::BindInt(d), QueryPartView::Sql(comp), QueryPartView::BindBool(c), ord]);
            assert(q[1] == QueryPartView::Sql(dim) && q[2] == QueryPartView::BindInt(d));
            assert(q[3] == QueryPartView::Sql(comp) && q[4] == QueryPartView::BindBool(c));
        },
        (Some(d), None) => {
            assert(q =~= seq![sel, QueryPartView::Sql(dim), QueryPartView::BindInt(d), ord]);
            assert(q[1] == QueryPartView::Sql(dim) && q[2] == QueryPartView::BindInt(d));
        },
        (None, Some(c)) => {
            assert(q =~= seq![sel, QueryPartView::Sql(comp), QueryPartView::BindBool(c), ord]);
            assert(q[1] == QueryPartView::Sql(comp) && q[2] == QueryPartView::BindBool(c));
        },
        (None, None) => {
            assert(q =~= seq![sel, ord]);
        },
    }
}

/// Builds the query that selects waypoints by dimension (given by the id
/// that the dimension's name was looked up to) and by completion state.
pub fn select_waypoints(dimension_id: Option<i32>, completed: Option<bool>) -> (parts: Vec<QueryPart>)
    ensures
        parts_view(parts@) == waypoints_query(dimension_id, completed),
{
    let mut parts: Vec<QueryPart> = Vec::new();
    parts.push(QueryPart::Sql(WAYPOINTS_QUERY.to_owned()));
    if let Some(dim_id) = dimension_id {
        parts.push(QueryPart::Sql(" and dimension = ".to_owned()));
        parts.push(QueryPart::BindInt(dim_id));
    }
    if let Some(c) = completed {
        parts.push(QueryPart::Sql(" and completed = ".to_owned()));
        parts.push(QueryPart::BindBool(c));
    }
    parts.push(QueryPart::Sql(" order by id".to_owned()));
    assert(parts_view(parts@) =~= waypoints_query(dimension_id, completed));
    parts
}


/// The values that the insert query binds, in the order of its placeholders.
pub struct PendingInsert {
    pub action: String,
    pub author_name: String,
    pub author_id: String,
    pub waypoint_id: Option<i32>,
    pub name: Option<String>,
    pub x: Option<i32>,
    pub y: Option<i32>,
    pub z: Option<i32>,
    pub dimension: Option<i32>,
    pub completed_changed: bool,
    pub completed_value: Option<bool>,
}

/// The error when a pending waypoint names a dimension that the database
/// does not know.
pub open spec fn unknown_dimension_text(name: Seq<char>) -> Seq<char> {
    "Couldn't find dimension '"@ + name + "' in database"@
}

/// Whether the completion state is to change, and to what: the two columns
/// that store `Option<Option<bool>>`.
pub open spec fn completed_columns(completed: Option<Option<bool>>) -> (bool, Option<bool>) {
    match completed {
        Some(value) => (true, value),
        None => (false, None),
    }
}

/// The completion change that the two stored columns describe.
pub open spec fn completed_from(changed: bool, value: Option<bool>) -> Option<Option<bool>> {
    if changed {
        Some(value)
    } else {
        None
    }
}

/// Reads the completion change back from its two columns.
pub fn completed_from_columns(changed: bool, value: Option<bool>) -> (completed: Option<Option<bool>>)
    ensures
        completed == completed_from(changed, value),
{
    if changed {
        Some(value)
    } else {
        None
    }
}

/// What is stored of a completion change reads back as that change.
pub proof fn completed_columns_round_trip(completed: Option<Option<bool>>)
    ensures
        completed_from(completed_columns(completed).0, completed_columns(completed).1) == completed,
        completed_columns(completed).0 <==> completed is Some,
        completed matches Some(v) ==> completed_columns(completed).1 == v,
        completed is None ==> completed_columns(completed).1 is None,
{
}

fn clone_text(s: &Option<String>) -> (r: Option<String>)
    ensures
        r matches Some(t) ==> s matches Some(u) && t@ == u@,
        r is None <==> s is None,
{
    match s {
        Some(t) => Some(t.clone()),
        None => None,
    }
}

/// The values to store for `waypoint`, whose dimension (when it names one)
/// was looked up to `dimension_id`; an error when the dimension is named but
/// was not found.
pub fn insert_pending_waypoint(waypoint: &PendingWaypoint, dimension_id: Option<i32>) -> (r: Result<
    PendingInsert,
    String,
>)
    ensures
        match r {
            Err(e) => waypoint.dimension matches Some(d) && dimension_id is None && e@ == unknown_dimension_text(d@),
            Ok(ins) => {
                &&& waypoint.dimension is Some ==> dimension_id is Some
                &&& ins.action@ == action_name(waypoint.action)
                &&& ins.author_name@ == waypoint.author_name@
                &&& ins.author_id@ == waypoint.author_id@
                &&& ins.waypoint_id == waypoint.waypoint_id
                &&& (ins.name is None <==> waypoint.name is None)
                &&& (ins.name matches Some(n) ==> waypoint.name matches Some(m) && n@ == m@)
                &&& ins.x == waypoint.x
                &&& ins.y == waypoint.y
                &&& ins.z == waypoint.z
                &&& ins.dimension == (if waypoint.dimension is Some { dimension_id } else { None })
                &&& (ins.completed_changed, ins.completed_value) == completed_columns(waypoint.completed)
            },
        },
{
    let dimension = match &waypoint.dimension {
        Some(name) => match dimension_id {
            Some(val) => Some(val),
            None => {
                let mut e = String::new();
                e.append("Couldn't find dimension '");
                e.append(name.as_str());
                e.append("' in database");
                return Err(e);
            },
        },
        None => None,
    };
    let (completed_changed, completed_value) = match waypoint.completed {
        Some(value) => (true, value),
        None => (false, None),
    };
    Ok(
        PendingInsert {
            action: waypoint.action.to_string(),
            author_name: waypoint.author_name.clone(),
            author_id: waypoint.author_id.clone(),
            waypoint_id: waypoint.waypoint_id,
            name: clone_text(&waypoint.name),
            x: waypoint.x,
            y: waypoint.y,
            z: waypoint.z,
            dimension,
            completed_changed,
            completed_value,
        },
    )
}


/// A pending waypoint as the database returns it: its action by name, its
/// dimension by name, and its completion change in two columns.
pub struct PendingWaypointRow {
    pub id: i32,
    pub action: String,
    pub author_name: String,
    pub author_id: String,
    pub waypoint_id: Option<i32>,
    pub name: Option<String>,
    pub x: Option<i32>,
    pub y: Option<i32>,
    pub z: Option<i32>,
    pub dimension_name: Option<String>,
    pub completed_changed: bool,
    pub completed_value: Option<bool>,
}

/// The pending waypoint that a row describes, when its action is known.
pub open spec fn row_to_pending(row: PendingWaypointRow) -> Option<PendingWaypoint> {
    match action_named(row.action@) {
        Some(action) => Some(
            PendingWaypoint {
                id: row.id,
                action,
                author_name: row.author_name,
                author_id: row.author_id,
                waypoint_id: row.waypoint_id,
                x: row.x,
                y: row.y,
                z: row.z,
                name: row.name,
                dimension: row.dimension_name,
                completed: completed_from(row.completed_changed, row.completed_value),
            },
        ),
        None => None,
    }
}

/// Why a row cannot be read: its action is unknown.
pub open spec fn row_error(row: PendingWaypointRow) -> Seq<char> {
    "Failed converting pending waypoint #"@ + int_text(row.id as int) + " to PendingWaypoint: unknown action '"@
        + row.action@ + "'"@
}

/// The pending waypoints that the rows describe, in order, leaving out the
/// rows that cannot be read.
pub open spec fn rows_to_pending(rows: Seq<PendingWaypointRow>) -> Seq<PendingWaypoint>
    decreases rows.len(),
{
    if rows.len() == 0 {
        Seq::empty()
    } else {
        rows_to_pending(rows.drop_last()) + match row_to_pending(rows.last()) {
            Some(p) => seq![p],
            None => Seq::empty(),
        }
    }
}

/// The errors of the rows that cannot be read, in order.
pub open spec fn row_errors(rows: Seq<PendingWaypointRow>) -> Seq<Seq<char>>
    decreases rows.len(),
{
    if rows.len() == 0 {
        Seq::empty()
    } else {
        row_errors(rows.drop_last()) + match row_to_pending(rows.last()) {
            Some(_) => Seq::empty(),
            None => seq![row_error(rows.last())],
        }
    }
}

/// Reads one row as a pending waypoint, or says why it cannot be read.
pub fn pending_from_row(row: PendingWaypointRow) -> (r: Result<PendingWaypoint, String>)
    ensures
        match r {
            Ok(p) => row_to_pending(row) == Some(p),
            Err(e) => row_to_pending(row) is None && e@ == row_error(row),
        },
{
    match PendingWaypointAction::from_name(row.action.as_str()) {
        Some(action) => {
            let completed = completed_from_columns(row.completed_changed, row.completed_value);
            Ok(
                PendingWaypoint {
                    id: row.id,
                    action,
                    author_name: row.author_name,
                    author_id: row.author_id,
                    waypoint_id: row.waypoint_id,
                    x: row.x,
                    y: row.y,
                    z: row.z,
                    name: row.name,
                    dimension: row.dimension_name,
                    completed,
                },
            )
        },
        None => {
            let mut e = String::new();
            e.append("Failed converting pending waypoint #");
            let id = i32_text(row.id);
            e.append(id.as_str());
            e.append(" to PendingWaypoint: unknown action '");
            e.append(row.action.as_str());
            e.append("'");
            Err(e)
        },
    }
}

/// Reads the rows as pending waypoints, in order, and collects the errors of
/// the rows that cannot be read.
pub fn pending_from_rows(rows: Vec<PendingWaypointRow>) -> (r: (Vec<PendingWaypoint>, Vec<String>))
    ensures
        r.0@ == rows_to_pending(rows@),
        string_views(r.1@) == row_errors(rows@),
{
    let ghost all = rows@;
    let mut rest = rows;
    let mut pending: Vec<PendingWaypoint> = Vec::new();
    let mut errors: Vec<String> = Vec::new();
    let ghost mut k: int = 0;
    assert(all.take(0) =~= Seq::<PendingWaypointRow>::empty());
    assert(string_views(errors@) =~= Seq::<Seq<char>>::empty());
    while rest.len() > 0
        invariant
            0 <= k <= all.len(),
            rest@ == all.skip(k),
            pending@ == rows_to_pending(all.take(k)),
            string_views(errors@) == row_errors(all.take(k)),
        decreases rest.len(),
    {
        let row = rest.remove(0);
        proof {
            assert(row == all[k]);
            assert(all.take(k + 1).drop_last() =~= all.take(k));
            assert(all.take(k + 1).last() == all[k]);
            assert(rest@ =~= all.skip(k + 1));
        }
        let ghost before_errors = errors@;
        match pending_from_row(row) {
            Ok(p) => {
                pending.push(p);
                assert(string_views(errors@) =~= string_views(before_errors));
            },
            Err(e) => {
                errors.push(e);
                assert(string_views(errors@) =~= string_views(before_errors).push(errors@.last()@));
            },
        }
        proof {
            k = k + 1;
        }
    }
    assert(all.take(k) =~= all);
    (pending, errors)
}


/// A row is read exactly when its action is one of "Add", "Edit" and
/// "Delete"; the pending waypoint it gives keeps the row's values, with the
/// action named as stored and the completion change rebuilt from its two
/// columns. A row that cannot be read is reported with its number and its
/// action.
pub proof fn row_read_keeps_values(row: PendingWaypointRow)
    ensures
        row_to_pending(row) is Some <==> (row.action@ == "Add"@ || row.action@ == "Edit"@ || row.action@ == "Delete"@),
        row_to_pending(row) matches Some(p) ==> {
            &&& p.id == row.id
            &&& action_name(p.action) == row.action@
            &&& p.author_name == row.author_name
            &&& p.author_id == row.author_id
            &&& p.waypoint_id == row.waypoint_id
            &&& p.name == row.name
            &&& p.x == row.x
            &&& p.y == row.y
            &&& p.z == row.z
            &&& p.dimension == row.dimension_name
            &&& p.completed == (if row.completed_changed { Some(row.completed_value) } else { None })
        },
        row_to_pending(row) is None ==> occurs_in(row.action@, row_error(row)) && occurs_in(
            int_text(row.id as int),
            row_error(row),
        ),
{
    let a = row.action@;
    let id = int_text(row.id as int);
    let e = row_error(row);
    let front = "Failed converting pending waypoint #"@;
    let mid = " to PendingWaypoint: unknown action '"@;
    assert(e =~= (front + id + mid) + a + "'"@);
    lemma_occurs_in_self(a);
    lemma_occurs_in_context(a, a, front + id + mid, "'"@);
    assert(e =~= front + id + (mid + a + "'"@));
    lemma_occurs_in_self(id);
    lemma_occurs_in_context(id, id, front, mid + a + "'"@);
}

/// Every row is either read or reported, in the order given: reading two
/// batches of rows one after the other gives what reading them together
/// gives, and no row is both read and reported or neither.
pub proof fn rows_read_or_reported(rows: Seq<PendingWaypointRow>, more: Seq<PendingWaypointRow>)
    ensures
        rows_to_pending(rows).len() + row_errors(rows).len() == rows.len(),
        rows_to_pending(rows + more) == rows_to_pending(rows) + rows_to_pending(more),
        row_errors(rows + more) == row_errors(rows) + row_errors(more),
    decreases more.len(),
{
    lemma_rows_count(rows);
    if more.len() == 0 {
        assert(rows + more =~= rows);
        assert(rows_to_pending(rows) + rows_to_pending(more) =~= rows_to_pending(rows));
        assert(row_errors(rows) + row_errors(more) =~= row_errors(rows));
    } else {
        rows_read_or_reported(rows, more.drop_last());
        assert((rows + more).drop_last() =~= rows + more.drop_last());
        assert((rows + more).last() == more.last());
        assert(rows_to_pending(rows + more) =~= rows_to_pending(rows) + rows_to_pending(more));
        assert(row_errors(rows + more) =~= row_errors(rows) + row_errors(more));
    }
}

proof fn lemma_rows_count(rows: Seq<PendingWaypointRow>)
    ensures
        rows_to_pending(rows).len() + row_errors(rows).len() == rows.len(),
    decreases rows.len(),
{
    if rows.len() > 0 {
        lemma_rows_count(rows.drop_last());
    }
}

/// The error for an unknown dimension names that dimension.
pub proof fn unknown_dimension_is_named(name: Seq<char>)
    ensures
        occurs_in(name, unknown_dimension_text(name)),
{
    lemma_occurs_in_self(name);
    lemma_occurs_in_context(name, name, "Couldn't find dimension '"@, "' in database"@);
}

} // verus!
