//! State queries over compositor snapshots handed in as plain values.
//!
//! The compositor is queried outside the library; the window list and
//! monitor list arrive here as vectors, and these functions pick out the
//! managed window and the focused monitor.

use vstd::prelude::*;
use crate::{Client, Monitor};

verus! {

/// The first client whose class equals `class` exactly, or none if no
/// client matches.
pub open spec fn spec_find_terminal(class: Seq<char>, clients: Seq<Client>) -> Option<Client>
    decreases clients.len(),
{
    if clients.len() == 0 {
        None
    } else if clients[0].class@ == class {
        Some(clients[0])
    } else {
        spec_find_terminal(class, clients.drop_first())
    }
}

proof fn lemma_find_terminal_at(class: Seq<char>, clients: Seq<Client>, i: int)
    requires
        0 <= i < clients.len(),
        clients[i].class@ == class,
        forall|j: int| 0 <= j < i ==> clients[j].class@ != class,
    ensures
        spec_find_terminal(class, clients) == Some(clients[i]),
    decreases i,
{
    if i > 0 {
        assert forall|j: int| 0 <= j < i - 1 implies clients.drop_first()[j].class@ != class by {
            assert(clients.drop_first()[j] == clients[j + 1]);
        }
        lemma_find_terminal_at(class, clients.drop_first(), i - 1);
        assert(clients.drop_first()[i - 1] == clients[i]);
    }
}

proof fn lemma_find_terminal_none(class: Seq<char>, clients: Seq<Client>)
    requires
        forall|j: int| 0 <= j < clients.len() ==> clients[j].class@ != class,
    ensures
        spec_find_terminal(class, clients) is None,
    decreases clients.len(),
{
    if clients.len() > 0 {
        assert forall|j: int| 0 <= j < clients.drop_first().len() implies clients.drop_first()[j].class@
            != class by {
            assert(clients.drop_first()[j] == clients[j + 1]);
        }
        lemma_find_terminal_none(class, clients.drop_first());
    }
}

/// Find the managed terminal window: the first client whose class equals
/// `class` exactly, or none if no client matches. Under duplicate class
/// identifiers the first match wins, with no tie-break rule.
pub fn find_terminal(class: &String, clients: Vec<Client>) -> (found: Option<Client>)
    ensures
        found == spec_find_terminal(class@, clients@),
{
    let mut idx: usize = 0;
    while idx < clients.len()
        invariant
            0 <= idx <= clients@.len(),
            forall|j: int| 0 <= j < idx ==> clients@[j].class@ != class@,
        decreases clients@.len() - idx,
    {
        if clients[idx].class == *class {
            proof {
                lemma_find_terminal_at(class@, clients@, idx as int);
            }
            let mut rest = clients;
            let c = rest.remove(idx);
            return Some(c);
        }
        idx += 1;
    }
    proof {
        lemma_find_terminal_none(class@, clients@);
    }
    None
}

/// The first monitor reporting focus, or none if no monitor does.
pub open spec fn spec_find_focused(monitors: Seq<Monitor>) -> Option<Monitor>
    decreases monitors.len(),
{
    if monitors.len() == 0 {
        None
    } else if monitors[0].focused {
        Some(monitors[0])
    } else {
        spec_find_focused(monitors.drop_first())
    }
}

proof fn lemma_find_focused_at(monitors: Seq<Monitor>, i: int)
    requires
        0 <= i < monitors.len(),
        monitors[i].focused,
        forall|j: int| 0 <= j < i ==> !monitors[j].focused,
    ensures
        spec_find_focused(monitors) == Some(monitors[i]),
    decreases i,
{
    if i > 0 {
        assert forall|j: int| 0 <= j < i - 1 implies !monitors.drop_first()[j].focused by {
            assert(monitors.drop_first()[j] == monitors[j + 1]);
        }
        lemma_find_focused_at(monitors.drop_first(), i - 1);
        assert(monitors.drop_first()[i - 1] == monitors[i]);
    }
}

proof fn lemma_find_focused_none(monitors: Seq<Monitor>)
    requires
        forall|j: int| 0 <= j < monitors.len() ==> !monitors[j].focused,
    ensures
        spec_find_focused(monitors) is None,
    decreases monitors.len(),
{
    if monitors.len() > 0 {
        assert forall|j: int| 0 <= j < monitors.drop_first().len() implies !monitors.drop_first()[j].focused by {
            assert(monitors.drop_first()[j] == monitors[j + 1]);
        }
        lemma_find_focused_none(monitors.drop_first());
    }
}

/// Find the focused monitor: the first entry reporting focus, or none if
/// no monitor does — the caller surfaces that as its not-found error.
pub fn find_active_monitor(monitors: &Vec<Monitor>) -> (found: Option<Monitor>)
    ensures
        found == spec_find_focused(monitors@),
{
    let mut idx: usize = 0;
    while idx < monitors.len()
        invariant
            0 <= idx <= monitors@.len(),
            forall|j: int| 0 <= j < idx ==> !monitors@[j].focused,
        decreases monitors@.len() - idx,
    {
        let m = monitors[idx];
        if m.focused {
            proof {
                lemma_find_focused_at(monitors@, idx as int);
            }
            return Some(m);
        }
        idx += 1;
    }
    proof {
        lemma_find_focused_none(monitors@);
    }
    None
}

} // verus!
