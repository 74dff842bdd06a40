pub mod utils;
pub mod waypoints;

use vstd::prelude::*;
use crate::text::{
    chunks, chunks_reassemble, lemma_occurs_in_context, lemma_occurs_in_self, nat_text, occurs_in, split_into_chunks,
    string_views, usize_text,
};

verus! {

/// The greeting of the hello command.
pub fn hello() -> (text: String)
    ensures
        text@ == "Hello, World!"@,
{
    "Hello, World!".to_owned()
}

/// How many characters one message of the overview holds at most.
pub const MESSAGE_CHARS: usize = 1900;

/// The overview of all waypoints: a heading that counts them, then each
/// waypoint's text on an indented line of its own.
pub open spec fn overview_text(entries: Seq<Seq<char>>) -> Seq<char> {
    "Waypoints ("@ + nat_text(entries.len()) + "):"@ + overview_lines(entries)
}

/// Each entry on a line of its own, indented by two spaces.
pub open spec fn overview_lines(entries: Seq<Seq<char>>) -> Seq<char>
    decreases entries.len(),
{
    if entries.len() == 0 {
        Seq::empty()
    } else {
        overview_lines(entries.drop_last()) + "\n  "@ + entries.last()
    }
}

/// The messages of the overview command, given the texts of the waypoints
/// the database returned (or the text of its error): the error, or that there
/// are none, or the overview cut into messages of at most 1900 characters.
pub open spec fn overview_messages(found: Result<Seq<Seq<char>>, Seq<char>>) -> Seq<Seq<char>> {
    match found {
        Err(e) => seq!["Failed getting waypoints: "@ + e],
        Ok(entries) => if entries.len() == 0 {
            seq!["No waypoints found!"@]
        } else {
            chunks(overview_text(entries), 1900)
        },
    }
}

/// The messages that the overview command sends, in order.
pub fn waypoints(found: Result<Vec<String>, String>) -> (messages: Vec<String>)
    ensures
        string_views(messages@) == overview_messages(
            match found {
                Ok(entries) => Ok(string_views(entries@)),
                Err(e) => Err(e@),
            },
        ),
{
    let entries = match found {
        Ok(val) => val,
        Err(e) => {
            let mut text = String::new();
            text.append("Failed getting waypoints: ");
            text.append(e.as_str());
            let mut messages = Vec::new();
            messages.push(text);
            assert(string_views(messages@) =~= seq![messages@[0]@]);
            return messages;
        },
    };
    let ghost views = string_views(entries@);
    if entries.len() == 0 {
        let mut messages = Vec::new();
        messages.push("No waypoints found!".to_owned());
        assert(string_views(messages@) =~= seq![messages@[0]@]);
        return messages;
    }
    let mut text = String::new();
    text.append("Waypoints (");
    let count = usize_text(entries.len());
    text.append(count.as_str());
    text.append("):");
    let ghost head = text@;
    let n = entries.len();
    let mut i: usize = 0;
    assert(views.take(0) =~= Seq::<Seq<char>>::empty());
    while i < n
        invariant
            i <= n,
            n == entries@.len(),
            views == string_views(entries@),
            text@ == head + overview_lines(views.take(i as int)),
        decreases n - i,
    {
        assert(views.take(i + 1).drop_last() =~= views.take(i as int));
        assert(views.take(i + 1).last() == entries@[i as int]@);
        text.append("\n  ");
        text.append(entries[i].as_str());
        i = i + 1;
    }
    assert(views.take(n as int) =~= views);
    split_into_chunks(text.as_str(), MESSAGE_CHARS)
}

#[verifier::spinoff_prover]
proof fn lemma_overview_lines_show_each(entries: Seq<Seq<char>>, j: int)
    requires
        0 <= j < entries.len(),
    ensures
        occurs_in("\n  "@ + entries[j], overview_lines(entries)),
    decreases entries.len(),
{
    let entry = "\n  "@ + entries[j];
    let before = overview_lines(entries.drop_last());
    if j == entries.len() - 1 {
        lemma_occurs_in_self(entry);
        lemma_occurs_in_context(entry, entry, before, Seq::empty());
        assert(before + entry + Seq::<char>::empty() =~= overview_lines(entries));
    } else {
        lemma_overview_lines_show_each(entries.drop_last(), j);
        assert(entries.drop_last()[j] == entries[j]);
        let after = "\n  "@ + entries.last();
        lemma_occurs_in_context(entry, before, Seq::empty(), after);
        assert(Seq::<char>::empty() + before + after =~= overview_lines(entries));
    }
}

/// The overview loses nothing: put back together, its messages are the
/// heading that counts the waypoints followed by every waypoint on an
/// indented line; no message is longer than 1900 characters. Without
/// waypoints, or on a database error, it sends one message, which passes the
/// error on.
pub proof fn overview_messages_show_everything(found: Result<Seq<Seq<char>>, Seq<char>>)
    ensures
        found is Ok && found->Ok_0.len() > 0 ==> {
            &&& overview_messages(found).flatten() == overview_text(found->Ok_0)
            &&& overview_text(found->Ok_0).take(("Waypoints ("@.len() + nat_text(found->Ok_0.len()).len()) as int)
                == "Waypoints ("@ + nat_text(found->Ok_0.len())
            &&& forall|j: int|
                0 <= j < found->Ok_0.len() ==> occurs_in("\n  "@ + #[trigger] found->Ok_0[j], overview_text(found->Ok_0))
            &&& forall|j: int|
                0 <= j < overview_messages(found).len() ==> #[trigger] overview_messages(found)[j].len() <= 1900
        },
        !(found is Ok && found->Ok_0.len() > 0) ==> overview_messages(found).len() == 1,
        found matches Err(e) ==> occurs_in(e, overview_messages(found)[0]),
{
    match found {
        Ok(entries) => {
            if entries.len() > 0 {
                chunks_reassemble(overview_text(entries), 1900);
                let head = "Waypoints ("@ + nat_text(entries.len());
                assert(overview_text(entries) =~= head + ("):"@ + overview_lines(entries)));
                assert(overview_text(entries).take(head.len() as int) =~= head);
                assert forall|j: int| 0 <= j < entries.len() implies occurs_in(
                    "\n  "@ + #[trigger] entries[j],
                    overview_text(entries),
                ) by {
                    lemma_overview_lines_show_each(entries, j);
                    lemma_occurs_in_context("\n  "@ + entries[j], overview_lines(entries), head + "):"@, Seq::empty());
                    assert(head + "):"@ + overview_lines(entries) + Seq::<char>::empty() =~= overview_text(entries));
                }
            }
        },
        Err(e) => {
            lemma_occurs_in_self(e);
            lemma_occurs_in_context(e, e, "Failed getting waypoints: "@, Seq::empty());
            assert("Failed getting waypoints: "@ + e + Seq::<char>::empty() =~= "Failed getting waypoints: "@ + e);
        },
    }
}

} // verus!
