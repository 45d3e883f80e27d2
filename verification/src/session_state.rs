//! The session registry: it issues session ids, never twice the same, keeps
//! one state cell per session, and answers lookups by id.

use crate::clock::{now_timestamp, on_clock};
use crate::error::{TaskError, TaskErrorView};
use crate::state::{State, StateChange, StateChangeView, StateView, LOGIN_WINDOW};
use crate::xx_state::{XxState, XxStateView};
use std::collections::HashMap;
use vstd::prelude::*;

verus! {

/// Why no session could be created.
#[derive(Clone, Copy, Debug, PartialEq, Eq, Structural)]
pub enum RegistryError {
    /// Every id has been issued.
    IdsExhausted,
}

/// The registry of sessions.
pub struct StateSession {
    data: HashMap<u64, XxState>,
    counter: u64,
}

/// Mathematical value of a [`StateSession`].
pub struct StateSessionView {
    /// The cell of each session, by id.
    pub cells: Map<u64, XxStateView>,
    /// The next id to issue.
    pub counter: u64,
}

/// Whether a cell shows in the history of the period `[from, until)`: it is
/// terminal and was last written inside the period.
pub open spec fn in_history(c: XxStateView, from: i64, until: i64) -> bool {
    c.state.is_terminal() && from <= c.updated_at < until
}

impl StateSessionView {
    /// The ids issued so far are exactly those below the counter.
    pub open spec fn wf(self) -> bool {
        forall|id: u64| self.cells.contains_key(id) <==> id < self.counter
    }

    /// The registry after a session was created at `now`: the counter's
    /// value became its id, and a fresh cell stands under it.
    pub open spec fn created(self, now: i64) -> StateSessionView {
        StateSessionView {
            cells: self.cells.insert(
                self.counter,
                XxStateView { state: StateView::Prepare, updated_at: now },
            ),
            counter: (self.counter + 1) as u64,
        }
    }

    /// The registry after the relay of session `id` applied `change` at `now`.
    pub open spec fn published(self, id: u64, change: StateChangeView, now: i64) -> StateSessionView {
        StateSessionView { cells: self.cells.insert(id, self.cells[id].publish(change, now)), ..self }
    }

    /// The registry after session `id` took over the value `conn` at `now`.
    pub open spec fn followed(self, id: u64, conn: StateView, cancelled: bool, now: i64) -> StateSessionView {
        StateSessionView {
            cells: self.cells.insert(id, self.cells[id].follow(conn, cancelled, now)),
            ..self
        }
    }

    /// The terminal states of the first `n` sessions that were last written
    /// in `[from, until)`, by ascending id.
    pub open spec fn history(self, n: nat, from: i64, until: i64) -> Seq<StateView>
        decreases n,
    {
        if n == 0 {
            Seq::empty()
        } else {
            let rest = self.history((n - 1) as nat, from, until);
            let c = self.cells[(n - 1) as u64];
            if in_history(c, from, until) {
                rest.push(c.state)
            } else {
                rest
            }
        }
    }
}

/// The states of a list, each by its view.
pub open spec fn states_view(v: Seq<State>) -> Seq<StateView> {
    Seq::new(v.len(), |i: int| v[i]@)
}

impl View for StateSession {
    type V = StateSessionView;

    closed spec fn view(&self) -> StateSessionView {
        StateSessionView {
            cells: Map::new(|id: u64| self.data@.contains_key(id), |id: u64| self.data@[id]@),
            counter: self.counter,
        }
    }
}

impl StateSession {
    /// The map behind the view holds a cell for `id` exactly when `id` was
    /// issued, and the view shows that cell.
    proof fn lemma_lookup(&self, id: u64)
        requires
            self@.wf(),
        ensures
            self.data@.contains_key(id) <==> id < self@.counter,
            self.data@.contains_key(id) ==> self@.cells[id] == self.data@[id]@,
    {
        assert(self@.cells.contains_key(id) <==> self.data@.contains_key(id));
    }

    /// A registry without sessions; the first id it issues is 0.
    pub fn new() -> (r: Self)
        ensures
            r@.wf(),
            r@.counter == 0,
            r@.cells == Map::<u64, XxStateView>::empty(),
    {
        StateSession { data: HashMap::new(), counter: 0 }
    }

    /// How many sessions were created.
    pub fn len(&self) -> (r: u64)
        ensures
            r == self@.counter,
    {
        self.counter
    }

    /// Creates a session at `now`: issues the next id and registers a fresh
    /// cell under it. Fails only when every id has been issued.
    pub fn new_state_at(&mut self, now: i64) -> (r: Result<u64, RegistryError>)
        requires
            old(self)@.wf(),
        ensures
            final(self)@.wf(),
            old(self)@.counter < u64::MAX ==> r == Ok::<u64, RegistryError>(old(self)@.counter)
                && final(self)@ == old(self)@.created(now),
            old(self)@.counter == u64::MAX ==> r == Err::<u64, RegistryError>(
                RegistryError::IdsExhausted,
            ) && final(self)@ == old(self)@,
    {
        broadcast use vstd::std_specs::hash::group_hash_axioms;

        if self.counter == u64::MAX {
            return Err(RegistryError::IdsExhausted);
        }
        let id = self.counter;
        self.data.insert(id, XxState::new_at(now));
        self.counter = id + 1;
        assert(self@.cells =~= old(self)@.cells.insert(
            id,
            XxStateView { state: StateView::Prepare, updated_at: now },
        ));
        Ok(id)
    }

    /// Creates a session now.
    pub fn new_state(&mut self) -> (r: Result<u64, RegistryError>)
        requires
            old(self)@.wf(),
        ensures
            final(self)@.wf(),
            old(self)@.counter < u64::MAX ==> r == Ok::<u64, RegistryError>(old(self)@.counter)
                && exists|now: i64|
                on_clock(now) && final(self)@ == #[trigger] old(self)@.created(now),
            old(self)@.counter == u64::MAX ==> r == Err::<u64, RegistryError>(
                RegistryError::IdsExhausted,
            ) && final(self)@ == old(self)@,
    {
        self.new_state_at(now_timestamp())
    }

    /// The cell of session `id`: a copy of it if the id was issued, `None`
    /// if it never was.
    pub fn get(&self, id: u64) -> (r: Option<XxState>)
        requires
            self@.wf(),
        ensures
            id < self@.counter ==> r.is_some() && r.unwrap()@ == self@.cells[id],
            id >= self@.counter ==> r.is_none(),
    {
        broadcast use vstd::std_specs::hash::group_hash_axioms;

        proof {
            self.lemma_lookup(id);
        }
        match self.data.get(&id) {
            Some(c) => Some(c.clone()),
            None => None,
        }
    }

    /// Applies one event of the stream of session `id` at `now`. Returns
    /// whether that stream goes on, or `None` if the id was never issued. No
    /// other session changes.
    pub fn publish_at(&mut self, id: u64, change: StateChange, now: i64) -> (r: Option<bool>)
        requires
            old(self)@.wf(),
            change@ is WaitingLogin ==> now + LOGIN_WINDOW <= i64::MAX,
        ensures
            final(self)@.wf(),
            final(self)@.counter == old(self)@.counter,
            id < old(self)@.counter ==> final(self)@ == old(self)@.published(id, change@, now)
                && r == Some(!final(self)@.cells[id].state.is_terminal()),
            id >= old(self)@.counter ==> r.is_none() && final(self)@ == old(self)@,
    {
        broadcast use vstd::std_specs::hash::group_hash_axioms;

        proof {
            self.lemma_lookup(id);
        }
        let mut cell = match self.data.get(&id) {
            Some(c) => c.clone(),
            None => {
                return None;
            },
        };
        let more = cell.publish_at(change, now);
        self.data.insert(id, cell);
        assert(self@.cells =~= old(self)@.cells.insert(
            id,
            old(self)@.cells[id].publish(change@, now),
        ));
        Some(more)
    }

    /// Lets session `id` take over the value `conn` of the connection that
    /// serves it, at `now`. Returns whether the follower goes on, or `None`
    /// if the id was never issued. No other session changes.
    pub fn follow_at(&mut self, id: u64, conn: State, cancelled: bool, now: i64) -> (r: Option<
        bool,
    >)
        requires
            old(self)@.wf(),
        ensures
            final(self)@.wf(),
            final(self)@.counter == old(self)@.counter,
            id < old(self)@.counter ==> final(self)@ == old(self)@.followed(
                id,
                conn@,
                cancelled,
                now,
            ) && r == Some(!final(self)@.cells[id].state.is_terminal()),
            id >= old(self)@.counter ==> r.is_none() && final(self)@ == old(self)@,
    {
        broadcast use vstd::std_specs::hash::group_hash_axioms;

        proof {
            self.lemma_lookup(id);
        }
        let mut cell = match self.data.get(&id) {
            Some(c) => c.clone(),
            None => {
                return None;
            },
        };
        let more = cell.follow_at(conn, cancelled, now);
        self.data.insert(id, cell);
        assert(self@.cells =~= old(self)@.cells.insert(
            id,
            old(self)@.cells[id].follow(conn@, cancelled, now),
        ));
        Some(more)
    }

    /// Breaks session `id` with the reason of `e` at `now`, unless it is over
    /// already. Returns whether the id was issued. No other session changes.
    pub fn fail_at(&mut self, id: u64, e: &TaskError, now: i64) -> (known: bool)
        requires
            old(self)@.wf(),
        ensures
            final(self)@.wf(),
            final(self)@.counter == old(self)@.counter,
            known == (id < old(self)@.counter),
            known ==> final(self)@ == old(self)@.published(
                id,
                StateChangeView::BrowserClosed(e@.reason()),
                now,
            ),
            !known ==> final(self)@ == old(self)@,
    {
        broadcast use vstd::std_specs::hash::group_hash_axioms;

        proof {
            self.lemma_lookup(id);
        }
        let mut cell = match self.data.get(&id) {
            Some(c) => c.clone(),
            None => {
                return false;
            },
        };
        cell.fail_at(e, now);
        self.data.insert(id, cell);
        assert(self@.cells =~= old(self)@.cells.insert(
            id,
            old(self)@.cells[id].publish(StateChangeView::BrowserClosed(e@.reason()), now),
        ));
        true
    }

    /// The terminal states of the sessions that were last written in
    /// `[from, until)`, by ascending id.
    pub fn get_history(&self, from: i64, until: i64) -> (r: Vec<State>)
        requires
            self@.wf(),
        ensures
            states_view(r@) == self@.history(self@.counter as nat, from, until),
    {
        broadcast use vstd::std_specs::hash::group_hash_axioms;

        let mut r: Vec<State> = Vec::new();
        let mut id: u64 = 0;
        while id < self.counter
            invariant
                self@.wf(),
                id <= self.counter,
                states_view(r@) == self@.history(id as nat, from, until),
            decreases self.counter - id,
        {
            proof {
                self.lemma_lookup(id);
            }
            if let Some(c) = self.data.get(&id) {
                let s = c.get_state();
                let t = c.updated_at();
                if s.is_terminal() && from <= t && t < until {
                    r.push(s);
                }
            }
            id = id + 1;
        }
        r
    }
}

} // verus!
