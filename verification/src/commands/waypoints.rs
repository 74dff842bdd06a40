use vstd::prelude::*;
use crate::commands::utils::{moderation_next, moderation_step, ModerationAction, ModerationCommand, ModerationEvent, ModerationStage};
use crate::models::{dimension_name, embed_text, pending_embed_text, DimensionEnum, PendingWaypoint, PendingWaypointAction, Waypoint};
use crate::text::{lemma_occurs_in_context, lemma_occurs_in_self, nat_text, occurs_in, usize_text};

verus! {

/// The text of the waypoints help command.
pub const HELP_TEXT: &'static str = "## Waypoints help
**Available commands:**
- `/waypoints list [dimension] [completed]` - List (show) waypoints 
- `/waypoint add <name> <x> <y> <z> <dimension> [completed]`
- `/waypoints help` - Show this help screen

**Command `/waypoints list`:** 
- Example usage: 
  - `/waypoints list`
  - `/waypoints list dimension:overworld`
  - `/waypoints list dimension:end completed:false`
- Optional Arguments: 
  - `dimension` 
    - Shows only waypoints in this dimension
    - Possible values: `overworld`, `nether`, `end`
  - `completed` 
    - Shows only waypoints which are (or aren't) marked as *Completed*
    - Possible values: `true`, `false`

**Command `/waypoints add`:** 
- Example usage: 
  - `/waypoints add name:Home x:0 y:63 z:0 dimension:overworld`
  - `/waypoints add name:Gold farm x:-500 y:127 z:-500 dimension:nether`
  - `/waypoints add name:End City x:5000 y:100 z:5000 dimension:end completed:true`
- Arguments: 
  - `name` - Name of the Waypoint 
  - `x`, `y`, `z`, - Coordinates of the Waypoint
  - `dimension` - Possible values: `overworld`, `nether`, `end`
- Optional Arguments: 
  - `completed` - Possible values: `true`, `false`
";

/// The help text of the waypoints commands.
pub fn help() -> (text: String)
    ensures
        text@ == HELP_TEXT@,
{
    HELP_TEXT.to_owned()
}

/// One step of `approve`: approves the pending waypoint with id `id`, or,
/// with no id, all of them after a warning.
pub fn approve(id: Option<i32>, stage: ModerationStage, event: ModerationEvent) -> (next: (
    ModerationStage,
    ModerationAction,
))
    ensures
        (next.0, next.1@) == moderation_next(ModerationCommand::Approve, id, stage, event@),
{
    moderation_step(ModerationCommand::Approve, id, stage, event)
}

/// One step of `reject`, which checks permission and pending waypoints and
/// then tells that rejecting is not implemented yet.
pub fn reject(id: Option<i32>, stage: ModerationStage, event: ModerationEvent) -> (next: (
    ModerationStage,
    ModerationAction,
))
    ensures
        (next.0, next.1@) == moderation_next(ModerationCommand::Reject, id, stage, event@),
{
    moderation_step(ModerationCommand::Reject, id, stage, event)
}


/// How many waypoints one page of the list shows.
pub const PAGE_SIZE: usize = 8;

/// The number of pages that `n` waypoints fill.
pub open spec fn page_count(n: nat) -> nat {
    ((n + 7) / 8) as nat
}

/// The waypoints on page `p` (counting from zero).
pub open spec fn page_items(ws: Seq<Waypoint>, p: nat) -> Seq<Waypoint> {
    let from: int = 8 * (p as int);
    ws.subrange(from, if from + 8 <= ws.len() { from + 8 } else { ws.len() as int })
}

/// The waypoints of a page, each on a line of its own.
pub open spec fn entry_lines(items: Seq<Waypoint>, show_completed: bool, show_dimension: bool) -> Seq<char>
    decreases items.len(),
{
    if items.len() == 0 {
        Seq::empty()
    } else {
        entry_lines(items.drop_last(), show_completed, show_dimension) + "\n"@ + embed_text(
            items.last(),
            show_completed,
            show_dimension,
        )
    }
}

/// The line that names the dimension the list is filtered by.
pub open spec fn dimension_filter_line(dimension: Option<DimensionEnum>) -> Seq<char> {
    match dimension {
        Some(d) => "\nDimension: *"@ + dimension_name(d) + "*"@,
        None => Seq::empty(),
    }
}

/// The line that names the completion state the list is filtered by.
pub open spec fn completed_filter_line(completed: Option<bool>) -> Seq<char> {
    match completed {
        Some(true) => "\nOnly "@ + "*Completed*"@ + " entries"@,
        Some(false) => "\nOnly "@ + "*Not Completed*"@ + " entries"@,
        None => Seq::empty(),
    }
}

/// The text of page number `number` (counting from one) of `total`. A
/// waypoint's completion state is shown only when the list is not filtered
/// by it, and likewise its dimension.
pub open spec fn page_text(
    dimension: Option<DimensionEnum>,
    completed: Option<bool>,
    number: nat,
    total: nat,
    items: Seq<Waypoint>,
) -> Seq<char> {
    "## Waypoints"@ + dimension_filter_line(dimension) + completed_filter_line(completed) + "\nPage "@
        + nat_text(number) + "/"@ + nat_text(total) + entry_lines(items, completed is None, dimension is None)
}

/// All pages of the list of `ws`.
pub open spec fn list_pages(ws: Seq<Waypoint>, dimension: Option<DimensionEnum>, completed: Option<bool>) -> Seq<
    Seq<char>,
> {
    Seq::new(
        page_count(ws.len()),
        |p: int| page_text(dimension, completed, (p + 1) as nat, page_count(ws.len()), page_items(ws, p as nat)),
    )
}

/// Every waypoint is listed, in order and once: waypoint `i` is entry
/// `i % 8` of the page with index `i / 8`, and every page lists between one
/// and eight waypoints.
pub proof fn list_shows_every_waypoint(ws: Seq<Waypoint>)
    ensures
        forall|i: int|
            0 <= i < ws.len() ==> {
                &&& i / 8 < page_count(ws.len())
                &&& i % 8 < page_items(ws, (i / 8) as nat).len()
                &&& page_items(ws, (i / 8) as nat)[i % 8] == #[trigger] ws[i]
            },
        forall|p: int|
            0 <= p < page_count(ws.len()) ==> 1 <= #[trigger] page_items(ws, p as nat).len() <= 8,
{
    assert forall|i: int| 0 <= i < ws.len() implies {
        &&& i / 8 < page_count(ws.len())
        &&& i % 8 < page_items(ws, (i / 8) as nat).len()
        &&& page_items(ws, (i / 8) as nat)[i % 8] == #[trigger] ws[i]
    } by {
        assert(8 * (i / 8) + i % 8 == i);
    }
}

#[verifier::spinoff_prover]
#[verifier::rlimit(40)]
proof fn lemma_entry_lines_show_each(items: Seq<Waypoint>, show_completed: bool, show_dimension: bool, j: int)
    requires
        0 <= j < items.len(),
    ensures
        occurs_in("\n"@ + embed_text(items[j], show_completed, show_dimension), entry_lines(items, show_completed, show_dimension)),
    decreases items.len(),
{
    let entry = "\n"@ + embed_text(items[j], show_completed, show_dimension);
    let before = entry_lines(items.drop_last(), show_completed, show_dimension);
    if j == items.len() - 1 {
        lemma_occurs_in_self(entry);
        lemma_occurs_in_context(entry, entry, before, Seq::empty());
        assert(before + entry + Seq::<char>::empty() =~= entry_lines(items, show_completed, show_dimension));
    } else {
        lemma_entry_lines_show_each(items.drop_last(), show_completed, show_dimension, j);
        assert(items.drop_last()[j] == items[j]);
        let after = "\n"@ + embed_text(items.last(), show_completed, show_dimension);
        lemma_occurs_in_context(entry, before, Seq::empty(), after);
        assert(Seq::<char>::empty() + before + after =~= entry_lines(items, show_completed, show_dimension));
    }
}

/// Each waypoint is shown on its page (the one with index `i / 8`) as its
/// own embed text on a line of its own. The completion mark is asked for
/// exactly when the list is not filtered by completion, and the dimension
/// exactly when it is not filtered by dimension: each depends on its own
/// filter alone.
pub proof fn list_shows_each_waypoint_with_its_filters(
    ws: Seq<Waypoint>,
    dimension: Option<DimensionEnum>,
    completed: Option<bool>,
    i: int,
)
    requires
        0 <= i < ws.len(),
    ensures
        i / 8 < list_pages(ws, dimension, completed).len(),
        occurs_in(
            "\n"@ + embed_text(ws[i], completed is None, dimension is None),
            list_pages(ws, dimension, completed)[i / 8],
        ),
{
    list_shows_every_waypoint(ws);
    assert(ws[i] == ws[i]);
    let p = i / 8;
    let items = page_items(ws, p as nat);
    assert(items[i % 8] == ws[i]);
    lemma_entry_lines_show_each(items, completed is None, dimension is None, i % 8);
    let head = "## Waypoints"@ + dimension_filter_line(dimension) + completed_filter_line(completed) + "\nPage "@
        + nat_text((p + 1) as nat) + "/"@ + nat_text(page_count(ws.len()));
    lemma_occurs_in_context(
        "\n"@ + embed_text(ws[i], completed is None, dimension is None),
        entry_lines(items, completed is None, dimension is None),
        head,
        Seq::empty(),
    );
    assert(head + entry_lines(items, completed is None, dimension is None) + Seq::<char>::empty() =~= list_pages(ws, dimension, completed)[p]);
}

/// The list has the fewest pages of eight that hold all waypoints. Every
/// page starts with the heading, names the dimension and the completion state
/// the list is filtered by, and says which page it is of how many.
pub proof fn list_pages_name_filters_and_numbers(
    ws: Seq<Waypoint>,
    dimension: Option<DimensionEnum>,
    completed: Option<bool>,
    p: int,
)
    requires
        0 <= p < list_pages(ws, dimension, completed).len(),
    ensures
        list_pages(ws, dimension, completed).len() * 8 >= ws.len(),
        (list_pages(ws, dimension, completed).len() - 1) * 8 < ws.len(),
        list_pages(ws, dimension, completed)[p].take(12) == "## Waypoints"@,
        dimension matches Some(d) ==> occurs_in(
            "\nDimension: *"@ + dimension_name(d) + "*"@,
            list_pages(ws, dimension, completed)[p],
        ),
        completed == Some(true) ==> occurs_in("\nOnly *Completed* entries"@, list_pages(ws, dimension, completed)[p]),
        completed == Some(false) ==> occurs_in("\nOnly *Not Completed* entries"@, list_pages(ws, dimension, completed)[p]),
        occurs_in(
            "\nPage "@ + nat_text((p + 1) as nat) + "/"@ + nat_text(list_pages(ws, dimension, completed).len()),
            list_pages(ws, dimension, completed)[p],
        ),
{
    reveal_strlit("## Waypoints");
    reveal_strlit("\nOnly ");
    reveal_strlit("*Completed*");
    reveal_strlit("*Not Completed*");
    reveal_strlit(" entries");
    reveal_strlit("\nOnly *Completed* entries");
    reveal_strlit("\nOnly *Not Completed* entries");
    let count = page_count(ws.len());
    let page = list_pages(ws, dimension, completed)[p];
    let items = page_items(ws, p as nat);
    let dl = dimension_filter_line(dimension);
    let cl = completed_filter_line(completed);
    let number = "\nPage "@ + nat_text((p + 1) as nat) + "/"@ + nat_text(count);
    let entries = entry_lines(items, completed is None, dimension is None);
    assert(page =~= "## Waypoints"@ + dl + cl + number + entries);
    assert(page.take(12) =~= "## Waypoints"@);
    if let Some(d) = dimension {
        lemma_occurs_in_self(dl);
        lemma_occurs_in_context(dl, dl, "## Waypoints"@, cl + number + entries);
        assert("## Waypoints"@ + dl + (cl + number + entries) =~= page);
    }
    if let Some(c) = completed {
        assert(cl =~= if c { "\nOnly *Completed* entries"@ } else { "\nOnly *Not Completed* entries"@ });
        lemma_occurs_in_self(cl);
        lemma_occurs_in_context(cl, cl, "## Waypoints"@ + dl, number + entries);
        assert("## Waypoints"@ + dl + cl + (number + entries) =~= page);
    }
    lemma_occurs_in_self(number);
    lemma_occurs_in_context(number, number, "## Waypoints"@ + dl + cl, entries);
}

/// The list command answers with pages exactly when the database returned
/// waypoints; a database error is passed on in its message.
pub proof fn list_reply_pages_only_for_waypoints(
    waypoints: Result<Seq<Waypoint>, Seq<char>>,
    dimension: Option<DimensionEnum>,
    completed: Option<bool>,
)
    ensures
        list_reply(waypoints, dimension, completed).0 <==> (waypoints is Ok && waypoints->Ok_0.len() > 0),
        waypoints is Ok && waypoints->Ok_0.len() > 0 ==> list_reply(waypoints, dimension, completed).1 == list_pages(
            waypoints->Ok_0,
            dimension,
            completed,
        ),
        !list_reply(waypoints, dimension, completed).0 ==> list_reply(waypoints, dimension, completed).1.len() == 1,
        waypoints matches Err(e) ==> occurs_in(e, list_reply(waypoints, dimension, completed).1[0]),
{
    if let Err(e) = waypoints {
        lemma_occurs_in_self(e);
        lemma_occurs_in_context(e, e, "Failed getting waypoints: "@, Seq::empty());
        assert("Failed getting waypoints: "@ + e + Seq::<char>::empty() =~= "Failed getting waypoints: "@ + e);
    }
}

/// What the list command answers.
pub enum ListReply {
    /// A single message.
    Say(String),
    /// Pages to page through.
    Pages(Vec<String>),
}

/// What the list command answers, given what the database returned (or the
/// text of its error).
pub open spec fn list_reply(
    waypoints: Result<Seq<Waypoint>, Seq<char>>,
    dimension: Option<DimensionEnum>,
    completed: Option<bool>,
) -> (bool, Seq<Seq<char>>) {
    match waypoints {
        Err(e) => (false, seq!["Failed getting waypoints: "@ + e]),
        Ok(ws) => if ws.len() == 0 {
            (false, seq!["No waypoints found!"@])
        } else {
            (true, list_pages(ws, dimension, completed))
        },
    }
}

/// The reply as (is it pages, its messages).
pub open spec fn list_reply_view(r: ListReply) -> (bool, Seq<Seq<char>>) {
    match r {
        ListReply::Say(s) => (false, seq![s@]),
        ListReply::Pages(pages) => (true, pages@.map_values(|t: String| t@)),
    }
}

fn dimension_line(dimension: Option<DimensionEnum>) -> (s: String)
    ensures
        s@ == dimension_filter_line(dimension),
{
    let mut s = String::new();
    if let Some(dim) = dimension {
        s.append("\nDimension: *");
        let name = dim.to_string();
        s.append(name.as_str());
        s.append("*");
    }
    s
}

fn completed_line(completed: Option<bool>) -> (s: String)
    ensures
        s@ == completed_filter_line(completed),
{
    let mut s = String::new();
    if let Some(val) = completed {
        s.append("\nOnly ");
        if val {
            s.append("*Completed*");
        } else {
            s.append("*Not Completed*");
        }
        s.append(" entries");
    }
    s
}

/// Builds one page of the list from the waypoints `ws[from..to]`.
fn build_page(
    ws: &Vec<Waypoint>,
    from: usize,
    to: usize,
    number: usize,
    total: usize,
    dimension: Option<DimensionEnum>,
    completed: Option<bool>,
) -> (text: String)
    requires
        from <= to <= ws@.len(),
    ensures
        text@ == page_text(dimension, completed, number as nat, total as nat, ws@.subrange(from as int, to as int)),
{
    let mut text = String::new();
    text.append("## Waypoints");
    let d = dimension_line(dimension);
    text.append(d.as_str());
    let c = completed_line(completed);
    text.append(c.as_str());
    text.append("\nPage ");
    let n = usize_text(number);
    text.append(n.as_str());
    text.append("/");
    let t = usize_text(total);
    text.append(t.as_str());
    let ghost head = text@;
    let show_completed = completed.is_none();
    let show_dimension = dimension.is_none();
    let mut i = from;
    assert(ws@.subrange(from as int, from as int) =~= Seq::<Waypoint>::empty());
    while i < to
        invariant
            from <= i <= to,
            to <= ws@.len(),
            text@ == head + entry_lines(ws@.subrange(from as int, i as int), show_completed, show_dimension),
        decreases to - i,
    {
        assert(ws@.subrange(from as int, i + 1).drop_last() =~= ws@.subrange(from as int, i as int));
        let line = ws[i].to_embed_text(show_completed, show_dimension);
        text.append("\n");
        text.append(line.as_str());
        i = i + 1;
    }
    text
}

/// Lists the waypoints that the database returned, filtered by `dimension`
/// and `completed`, in pages of eight.
pub fn list(waypoints: Result<Vec<Waypoint>, String>, dimension: Option<DimensionEnum>, completed: Option<bool>) -> (reply: ListReply)
    ensures
        list_reply_view(reply) == list_reply(
            match waypoints {
                Ok(ws) => Ok(ws@),
                Err(e) => Err(e@),
            },
            dimension,
            completed,
        ),
{
    let waypoints = match waypoints {
        Ok(val) => val,
        Err(e) => {
            let mut text = String::new();
            text.append("Failed getting waypoints: ");
            text.append(e.as_str());
            return ListReply::Say(text);
        },
    };
    if waypoints.len() == 0 {
        return ListReply::Say("No waypoints found!".to_owned());
    }
    let n = waypoints.len();
    let max_pages: usize = if n % PAGE_SIZE == 0 { n / PAGE_SIZE } else { n / PAGE_SIZE + 1 };
    assert(max_pages == page_count(n as nat));
    let mut pages: Vec<String> = Vec::new();
    let mut p: usize = 0;
    while p < max_pages
        invariant
            p <= max_pages,
            max_pages == page_count(n as nat),
            n == waypoints@.len(),
            pages@.len() == p,
            forall|j: int|
                0 <= j < p ==> #[trigger] pages@[j]@ == list_pages(waypoints@, dimension, completed)[j],
        decreases max_pages - p,
    {
        let from = p * PAGE_SIZE;
        let to = if n - from <= PAGE_SIZE { n } else { from + PAGE_SIZE };
        let page = build_page(&waypoints, from, to, p + 1, max_pages, dimension, completed);
        pages.push(page);
        p = p + 1;
    }
    assert(pages@.map_values(|t: String| t@) =~= list_pages(waypoints@, dimension, completed));
    ListReply::Pages(pages)
}


/// What the add command answers once the waypoint is stored as pending.
pub const ADDED_TEXT: &'static str = "Created new Waypoint!
This Waypoint is **pending** and will appear in Waypoints as soon as Admin approves it
> See `/waypoints pending`";

/// The pending waypoint that asks for a new waypoint with the given values,
/// on behalf of the given author.
pub fn add(
    name: String,
    x: i32,
    y: i32,
    z: i32,
    dimension: DimensionEnum,
    completed: Option<bool>,
    author_name: String,
    author_id: String,
) -> (pending: PendingWaypoint)
    ensures
        pending.id == 0,
        pending.action == PendingWaypointAction::Add,
        pending.author_name@ == author_name@,
        pending.author_id@ == author_id@,
        pending.waypoint_id is None,
        pending.x == Some(x),
        pending.y == Some(y),
        pending.z == Some(z),
        pending.name matches Some(n) && n@ == name@,
        pending.dimension matches Some(d) && d@ == dimension_name(dimension),
        pending.completed == Some(completed),
{
    PendingWaypoint {
        id: 0,
        action: PendingWaypointAction::Add,
        author_name,
        author_id,
        waypoint_id: None,
        x: Some(x),
        y: Some(y),
        z: Some(z),
        name: Some(name),
        dimension: Some(dimension.to_string()),
        completed: Some(completed),
    }
}

/// What the pending command answers.
pub enum PendingReply {
    /// A plain message: nothing is pending.
    Say(String),
    /// An embed that lists the pending waypoints.
    Embed(String),
}

/// What the pending command answers for the pending waypoints.
pub open spec fn pending_reply(pending: Seq<PendingWaypoint>) -> (bool, Seq<char>) {
    if pending.len() == 0 {
        (false, "The are no Pending Waypoints!"@)
    } else {
        (true, "## Pending Waypoints\n Results: "@ + nat_text(pending.len()) + pending_lines(pending))
    }
}

/// Each pending waypoint's embed text on a line of its own.
pub open spec fn pending_lines(pending: Seq<PendingWaypoint>) -> Seq<char>
    decreases pending.len(),
{
    if pending.len() == 0 {
        Seq::empty()
    } else {
        pending_lines(pending.drop_last()) + "\n"@ + pending_embed_text(pending.last())
    }
}

#[verifier::spinoff_prover]
proof fn lemma_pending_lines_show_each(pending: Seq<PendingWaypoint>, j: int)
    requires
        0 <= j < pending.len(),
    ensures
        occurs_in("\n"@ + pending_embed_text(pending[j]), pending_lines(pending)),
    decreases pending.len(),
{
    let entry = "\n"@ + pending_embed_text(pending[j]);
    let before = pending_lines(pending.drop_last());
    if j == pending.len() - 1 {
        lemma_occurs_in_self(entry);
        lemma_occurs_in_context(entry, entry, before, Seq::empty());
        assert(before + entry + Seq::<char>::empty() =~= pending_lines(pending));
    } else {
        lemma_pending_lines_show_each(pending.drop_last(), j);
        assert(pending.drop_last()[j] == pending[j]);
        let after = "\n"@ + pending_embed_text(pending.last());
        lemma_occurs_in_context(entry, before, Seq::empty(), after);
        assert(Seq::<char>::empty() + before + after =~= pending_lines(pending));
    }
}

/// The pending command answers with an embed exactly when something is
/// pending; the embed counts the pending waypoints and shows each of them
/// on a line of its own.
pub proof fn pending_reply_shows_each(pending: Seq<PendingWaypoint>)
    ensures
        pending_reply(pending).0 <==> pending.len() > 0,
        pending.len() > 0 ==> pending_reply(pending).1.take(
            ("## Pending Waypoints\n Results: "@.len() + nat_text(pending.len()).len()) as int,
        ) == "## Pending Waypoints\n Results: "@ + nat_text(pending.len()),
        forall|j: int|
            0 <= j < pending.len() ==> occurs_in(
                "\n"@ + pending_embed_text(#[trigger] pending[j]),
                pending_reply(pending).1,
            ),
{
    if pending.len() > 0 {
        let head = "## Pending Waypoints\n Results: "@ + nat_text(pending.len());
        assert(pending_reply(pending).1.take(head.len() as int) =~= head);
        assert forall|j: int| 0 <= j < pending.len() implies occurs_in(
            "\n"@ + pending_embed_text(#[trigger] pending[j]),
            pending_reply(pending).1,
        ) by {
            lemma_pending_lines_show_each(pending, j);
            lemma_occurs_in_context("\n"@ + pending_embed_text(pending[j]), pending_lines(pending), head, Seq::empty());
            assert(head + pending_lines(pending) + Seq::<char>::empty() =~= pending_reply(pending).1);
        }
    }
}

/// The reply as (is it an embed, its text).
pub open spec fn pending_reply_view(r: PendingReply) -> (bool, Seq<char>) {
    match r {
        PendingReply::Say(s) => (false, s@),
        PendingReply::Embed(s) => (true, s@),
    }
}

/// Answers the pending command for the pending waypoints.
pub fn pending(waypoints: &Vec<PendingWaypoint>) -> (reply: PendingReply)
    ensures
        pending_reply_view(reply) == pending_reply(waypoints@),
{
    if waypoints.len() == 0 {
        return PendingReply::Say("The are no Pending Waypoints!".to_owned());
    }
    let mut text = String::new();
    text.append("## Pending Waypoints\n Results: ");
    let count = usize_text(waypoints.len());
    text.append(count.as_str());
    let ghost head = text@;
    let n = waypoints.len();
    let mut i: usize = 0;
    assert(waypoints@.take(0) =~= Seq::<PendingWaypoint>::empty());
    while i < n
        invariant
            i <= n,
            n == waypoints@.len(),
            text@ == head + pending_lines(waypoints@.take(i as int)),
        decreases n - i,
    {
        assert(waypoints@.take(i + 1).drop_last() =~= waypoints@.take(i as int));
        let line = waypoints[i].to_embed_text();
        text.append("\n");
        text.append(line.as_str());
        i = i + 1;
    }
    assert(waypoints@.take(n as int) =~= waypoints@);
    PendingReply::Embed(text)
}

} // verus!
