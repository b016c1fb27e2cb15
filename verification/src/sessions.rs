//! The HTTP server's sessions and the transactions queued in them.

use vstd::prelude::*;

use crate::catalog::{is_hyphenated_uuid, random_identity};
use crate::http::{api_view, ApiError, ApiView};
use crate::text::text_eq;
use crate::wire::QueryField;

verus! {

/// One statement of a queued transaction.
#[derive(Debug, PartialEq, Eq)]
pub struct SessionStatement {
    /// Query text.
    pub query: String,
    /// Its parameters.
    pub parameters: Vec<QueryField>,
}

/// One session.
#[derive(Debug, PartialEq, Eq)]
pub struct Session {
    /// Its opaque identity.
    pub id: String,
    /// The transaction that is being queued.
    pub transaction: Option<Vec<SessionStatement>>,
}

/// What a session queues.
pub open spec fn queue_view(transaction: Option<Vec<SessionStatement>>) -> Option<
    Seq<SessionStatement>,
> {
    match transaction {
        Some(statements) => Some(statements@),
        None => None,
    }
}

/// The sessions of a server.
#[derive(Debug, PartialEq, Eq)]
pub struct Sessions {
    /// The sessions, each identity once.
    pub entries: Vec<Session>,
}

/// Whether a session has this identity.
pub open spec fn has_session(entries: Seq<Session>, id: Seq<char>) -> bool {
    exists|i: int| 0 <= i < entries.len() && (#[trigger] entries[i]).id@ == id
}

/// The position of the session with this identity.
pub open spec fn session_position(entries: Seq<Session>, id: Seq<char>) -> int {
    choose|i: int| 0 <= i < entries.len() && (#[trigger] entries[i]).id@ == id
}

impl View for Sessions {
    type V = Map<Seq<char>, Option<Seq<SessionStatement>>>;

    /// What each session queues.
    open spec fn view(&self) -> Map<Seq<char>, Option<Seq<SessionStatement>>> {
        Map::new(
            |id: Seq<char>| has_session(self.entries@, id),
            |id: Seq<char>|
                queue_view(self.entries@[session_position(self.entries@, id)].transaction),
        )
    }
}

/// Whether no identity occurs twice.
pub open spec fn unique_sessions(entries: Seq<Session>) -> bool {
    forall|i: int, j: int|
        #![trigger entries[i], entries[j]]
        0 <= i < entries.len() && 0 <= j < entries.len() && entries[i].id@ == entries[j].id@ ==> i
            == j
}

/// The failure for a session that does not exist.
pub open spec fn session_not_found_view() -> ApiView {
    api_view(404, "session_not_found"@, "session does not exist"@)
}

/// The failure for one session too many.
pub open spec fn session_limit_view() -> ApiView {
    api_view(429, "session_limit"@, "maximum session count reached"@)
}

/// The failure for a transaction within a transaction.
pub open spec fn transaction_active_view() -> ApiView {
    api_view(409, "transaction_active"@, "session already has an active transaction"@)
}

/// The failure for a transaction that was not begun.
pub open spec fn no_transaction_view() -> ApiView {
    api_view(409, "no_transaction"@, "session has no active transaction"@)
}

/// The failure for one statement too many.
pub open spec fn statement_limit_view() -> ApiView {
    api_view(429, "transaction_statement_limit"@, "transaction statement limit reached"@)
}

/// What beginning a transaction is refused with, if it is.
pub open spec fn begin_refusal(
    queues: Map<Seq<char>, Option<Seq<SessionStatement>>>,
    id: Seq<char>,
) -> Option<ApiView> {
    if !queues.dom().contains(id) {
        Some(session_not_found_view())
    } else if queues[id] is Some {
        Some(transaction_active_view())
    } else {
        None
    }
}

/// What ending a transaction is refused with, if it is.
pub open spec fn end_refusal(
    queues: Map<Seq<char>, Option<Seq<SessionStatement>>>,
    id: Seq<char>,
) -> Option<ApiView> {
    if !queues.dom().contains(id) {
        Some(session_not_found_view())
    } else if queues[id] is None {
        Some(no_transaction_view())
    } else {
        None
    }
}

/// The sessions once a transaction is begun.
pub open spec fn begun(
    queues: Map<Seq<char>, Option<Seq<SessionStatement>>>,
    id: Seq<char>,
) -> Map<Seq<char>, Option<Seq<SessionStatement>>> {
    if begin_refusal(queues, id) is None {
        queues.insert(id, Some(Seq::empty()))
    } else {
        queues
    }
}

/// The sessions once a transaction is committed or rolled back.
pub open spec fn ended(
    queues: Map<Seq<char>, Option<Seq<SessionStatement>>>,
    id: Seq<char>,
) -> Map<Seq<char>, Option<Seq<SessionStatement>>> {
    if end_refusal(queues, id) is None {
        queues.insert(id, None)
    } else {
        queues
    }
}

/// The sessions once a statement is queued.
pub open spec fn with_statement(
    queues: Map<Seq<char>, Option<Seq<SessionStatement>>>,
    id: Seq<char>,
    statement: SessionStatement,
) -> Map<Seq<char>, Option<Seq<SessionStatement>>> {
    queues.insert(id, Some(queues[id]->0.push(statement)))
}

/// The sessions once these statements are queued one after the other.
pub open spec fn with_statements(
    queues: Map<Seq<char>, Option<Seq<SessionStatement>>>,
    id: Seq<char>,
    statements: Seq<SessionStatement>,
) -> Map<Seq<char>, Option<Seq<SessionStatement>>>
    decreases statements.len(),
{
    if statements.len() == 0 {
        queues
    } else {
        with_statement(
            with_statements(queues, id, statements.drop_last()),
            id,
            statements.last(),
        )
    }
}

proof fn lemma_position(entries: Seq<Session>, i: int)
    requires
        unique_sessions(entries),
        0 <= i < entries.len(),
    ensures
        has_session(entries, entries[i].id@),
        session_position(entries, entries[i].id@) == i,
{
    let k = session_position(entries, entries[i].id@);
    assert(entries[k].id@ == entries[i].id@);
}

impl Sessions {
    /// No identity occurs twice.
    pub open spec fn well_formed(self) -> bool {
        unique_sessions(self.entries@)
    }

    /// No session.
    pub fn new() -> (sessions: Self)
        ensures
            sessions.well_formed(),
            sessions@ == Map::<Seq<char>, Option<Seq<SessionStatement>>>::empty(),
            sessions.entries@.len() == 0,
    {
        let sessions = Sessions { entries: Vec::new() };
        proof {
            assert(sessions@ =~= Map::<Seq<char>, Option<Seq<SessionStatement>>>::empty());
        }
        sessions
    }

    fn find(&self, id: &str) -> (position: Option<usize>)
        requires
            self.well_formed(),
        ensures
            match position {
                Some(i) => i < self.entries@.len() && self.entries@[i as int].id@ == id@
                    && session_position(self.entries@, id@) == i && self@.dom().contains(id@),
                None => !self@.dom().contains(id@),
            },
    {
        let mut i: usize = 0;
        while i < self.entries.len()
            invariant
                i <= self.entries@.len(),
                unique_sessions(self.entries@),
                forall|k: int| 0 <= k < i ==> (#[trigger] self.entries@[k]).id@ != id@,
            decreases self.entries.len() - i,
        {
            if text_eq(self.entries[i].id.as_str(), id) {
                proof {
                    lemma_position(self.entries@, i as int);
                }
                return Some(i);
            }
            i = i + 1;
        }
        None
    }

    fn replace(&mut self, i: usize, transaction: Option<Vec<SessionStatement>>)
        requires
            old(self).well_formed(),
            i < old(self).entries@.len(),
        ensures
            final(self).well_formed(),
            final(self).entries@.len() == old(self).entries@.len(),
            final(self)@ == old(self)@.insert(
                old(self).entries@[i as int].id@,
                queue_view(transaction),
            ),
    {
        let ghost before = *self;
        let ghost queue = queue_view(transaction);
        let id = self.entries[i].id.clone();
        let ghost name = id@;
        self.entries.set(i, Session { id, transaction });
        proof {
            let after = self.entries@;
            assert forall|a: int, b: int|
                #![trigger after[a], after[b]]
                0 <= a < after.len() && 0 <= b < after.len() && after[a].id@
                    == after[b].id@ implies a == b by {
                assert(after[a].id@ == before.entries@[a].id@);
                assert(after[b].id@ == before.entries@[b].id@);
            }
            lemma_position(before.entries@, i as int);
            lemma_position(after, i as int);
            let expected = before@.insert(name, queue);
            assert forall|key: Seq<char>| self@.dom().contains(key) == expected.dom().contains(
                key,
            ) by {
                if has_session(after, key) {
                    let k = session_position(after, key);
                    assert(before.entries@[k].id@ == key);
                }
                if has_session(before.entries@, key) {
                    let k = session_position(before.entries@, key);
                    assert(after[k].id@ == key);
                }
            }
            assert forall|key: Seq<char>| #[trigger] self@.dom().contains(key) implies self@[key]
                == expected[key] by {
                let k = session_position(after, key);
                assert(before.entries@[k].id@ == key);
                lemma_position(before.entries@, k);
                lemma_position(after, k);
            }
            assert(self@ =~= expected);
        }
    }

    fn extract(&mut self, i: usize) -> (transaction: Option<Vec<SessionStatement>>)
        requires
            old(self).well_formed(),
            i < old(self).entries@.len(),
        ensures
            final(self).well_formed(),
            final(self).entries@.len() == old(self).entries@.len(),
            final(self).entries@[i as int].id@ == old(self).entries@[i as int].id@,
            transaction == old(self).entries@[i as int].transaction,
            final(self)@ == old(self)@.insert(old(self).entries@[i as int].id@, None),
    {
        let ghost before = *self;
        let id = self.entries[i].id.clone();
        let ghost name = id@;
        self.entries.push(Session { id, transaction: None });
        let session = self.entries.swap_remove(i);
        proof {
            let entries = before.entries@;
            let now = self.entries@;
            assert(now.len() == entries.len());
            assert forall|k: int| 0 <= k < entries.len() implies (#[trigger] now[k]).id@
                == entries[k].id@ && (k != i ==> now[k] == entries[k]) by {}
            assert forall|a: int, b: int|
                #![trigger now[a], now[b]]
                0 <= a < now.len() && 0 <= b < now.len() && now[a].id@ == now[b].id@ implies a
                == b by {
                assert(now[a].id@ == entries[a].id@ && now[b].id@ == entries[b].id@);
            }
            let expected = before@.insert(name, None);
            assert forall|key: Seq<char>| self@.dom().contains(key) == expected.dom().contains(
                key,
            ) by {
                if has_session(now, key) {
                    let k = session_position(now, key);
                    assert(entries[k].id@ == key);
                }
                if has_session(entries, key) {
                    let k = session_position(entries, key);
                    assert(now[k].id@ == key);
                }
                assert(now[i as int].id@ == name);
            }
            assert forall|key: Seq<char>| #[trigger] self@.dom().contains(key) implies self@[key]
                == expected[key] by {
                let k = session_position(now, key);
                assert(entries[k].id@ == key);
                lemma_position(entries, k);
                lemma_position(now, k);
            }
            assert(self@ =~= expected);
        }
        session.transaction
    }

    /// Creates a session under a fresh random identity.
    pub fn create(&mut self, max_sessions: usize) -> (result: Result<String, ApiError>)
        requires
            old(self).well_formed(),
        ensures
            final(self).well_formed(),
            match result {
                Ok(id) => {
                    &&& old(self).entries@.len() < max_sessions
                    &&& is_hyphenated_uuid(id@)
                    &&& final(self)@ == old(self)@.insert(id@, None)
                    &&& final(self).entries@.len() <= old(self).entries@.len() + 1
                },
                Err(error) => old(self).entries@.len() >= max_sessions && error@
                    == session_limit_view() && *final(self) == *old(self),
            },
    {
        if self.entries.len() >= max_sessions {
            return Err(ApiError::new(429, "session_limit", "maximum session count reached"));
        }
        let id = random_identity();
        match self.find(id.as_str()) {
            Some(i) => {
                self.replace(i, None);
            },
            None => {
                let ghost before = *self;
                self.entries.push(Session { id: id.clone(), transaction: None });
                proof {
                    let after = self.entries@;
                    assert forall|a: int, b: int|
                        #![trigger after[a], after[b]]
                        0 <= a < after.len() && 0 <= b < after.len() && after[a].id@
                            == after[b].id@ implies a == b by {
                        if a < before.entries@.len() {
                            assert(after[a] == before.entries@[a]);
                            assert(before.entries@[a].id@ != id@);
                        }
                        if b < before.entries@.len() {
                            assert(after[b] == before.entries@[b]);
                            assert(before.entries@[b].id@ != id@);
                        }
                    }
                    let expected = before@.insert(id@, None);
                    let last = after.len() - 1;
                    lemma_position(after, last);
                    assert forall|key: Seq<char>|
                        self@.dom().contains(key) == expected.dom().contains(key) by {
                        if has_session(after, key) {
                            let k = session_position(after, key);
                            if k < last {
                                assert(before.entries@[k].id@ == key);
                            }
                        }
                        if has_session(before.entries@, key) {
                            let k = session_position(before.entries@, key);
                            assert(after[k].id@ == key);
                        }
                    }
                    assert forall|key: Seq<char>| #[trigger]
                        self@.dom().contains(key) implies self@[key] == expected[key] by {
                        let k = session_position(after, key);
                        if k < last {
                            assert(before.entries@[k].id@ == key);
                            lemma_position(before.entries@, k);
                        }
                        lemma_position(after, k);
                    }
                    assert(self@ =~= expected);
                }
            },
        }
        Ok(id)
    }

    /// Removes a session and what it queues.
    pub fn delete(&mut self, id: &str) -> (result: Result<(), ApiError>)
        requires
            old(self).well_formed(),
        ensures
            final(self).well_formed(),
            result is Ok <==> old(self)@.dom().contains(id@),
            result is Err ==> result->Err_0@ == session_not_found_view(),
            final(self)@ == old(self)@.remove(id@),
    {
        match self.find(id) {
            None => {
                proof {
                    assert(self@ =~= self@.remove(id@));
                }
                Err(ApiError::new(404, "session_not_found", "session does not exist"))
            },
            Some(i) => {
                let ghost before = *self;
                let _ = self.entries.remove(i);
                proof {
                    let after = self.entries@;
                    let old_entries = before.entries@;
                    assert forall|a: int, b: int|
                        #![trigger after[a], after[b]]
                        0 <= a < after.len() && 0 <= b < after.len() && after[a].id@
                            == after[b].id@ implies a == b by {
                        let x = if a < i { a } else { a + 1 };
                        let y = if b < i { b } else { b + 1 };
                        assert(after[a] == old_entries[x] && after[b] == old_entries[y]);
                    }
                    let expected = before@.remove(id@);
                    assert forall|key: Seq<char>|
                        self@.dom().contains(key) == expected.dom().contains(key) by {
                        if has_session(after, key) {
                            let k = session_position(after, key);
                            let x = if k < i { k } else { k + 1 };
                            assert(old_entries[x] == after[k]);
                            assert(old_entries[x].id@ == key);
                            assert(old_entries[i as int].id@ == id@);
                        }
                        if has_session(old_entries, key) && key != id@ {
                            let x = session_position(old_entries, key);
                            let k = if x < i { x } else { x - 1 };
                            assert(after[k] == old_entries[x]);
                        }
                    }
                    assert forall|key: Seq<char>| #[trigger]
                        self@.dom().contains(key) implies self@[key] == expected[key] by {
                        let k = session_position(after, key);
                        let x = if k < i { k } else { k + 1 };
                        assert(old_entries[x] == after[k]);
                        lemma_position(old_entries, x);
                        lemma_position(after, k);
                    }
                    assert(self@ =~= expected);
                }
                Ok(())
            },
        }
    }

    /// Begins a transaction.
    pub fn begin(&mut self, id: &str) -> (result: Result<(), ApiError>)
        requires
            old(self).well_formed(),
        ensures
            final(self).well_formed(),
            begin_refusal(old(self)@, id@) == (match result {
                Ok(()) => None,
                Err(error) => Some(error@),
            }),
            final(self)@ == begun(old(self)@, id@),
    {
        match self.find(id) {
            None => Err(ApiError::new(404, "session_not_found", "session does not exist")),
            Some(i) => {
                if self.entries[i].transaction.is_some() {
                    return Err(
                        ApiError::new(
                            409,
                            "transaction_active",
                            "session already has an active transaction",
                        ),
                    );
                }
                self.replace(i, Some(Vec::new()));
                Ok(())
            },
        }
    }

    /// Whether a session queues a transaction, and how many statements it holds.
    pub fn queued(&self, id: &str) -> (result: Result<Option<usize>, ApiError>)
        requires
            self.well_formed(),
        ensures
            match result {
                Err(error) => !self@.dom().contains(id@) && error@ == session_not_found_view(),
                Ok(queued) => self@.dom().contains(id@) && match (queued, self@[id@]) {
                    (None, None) => true,
                    (Some(count), Some(statements)) => count == statements.len(),
                    _ => false,
                },
            },
    {
        match self.find(id) {
            None => Err(ApiError::new(404, "session_not_found", "session does not exist")),
            Some(i) => match &self.entries[i].transaction {
                None => Ok(None),
                Some(statements) => Ok(Some(statements.len())),
            },
        }
    }

    /// Queues a statement in a session's transaction and returns how many it holds. `limited` says
    /// whether the request has limits of its own, `supported` whether the engine can prepare it.
    pub fn queue(
        &mut self,
        id: &str,
        statement: SessionStatement,
        limited: bool,
        supported: bool,
        max_statements: usize,
    ) -> (result: Result<u64, ApiError>)
        requires
            old(self).well_formed(),
            old(self)@.dom().contains(id@),
            old(self)@[id@] is Some,
        ensures
            final(self).well_formed(),
            ({
                let statements = old(self)@[id@]->0;
                match queue_refusal(statements.len(), limited, supported, max_statements) {
                    Some(refusal) => result is Err && result->Err_0@ == refusal && final(self)@
                        == old(self)@,
                    None => result == Ok::<u64, ApiError>((statements.len() + 1) as u64)
                        && final(self)@ == with_statement(old(self)@, id@, statement),
                }
            }),
    {
        if limited {
            return Err(
                ApiError::bad_request(
                    "per-request limits are not accepted inside a transaction; the server transaction budget applies at commit",
                ),
            );
        }
        let position = self.find(id);
        let i: usize = match position {
            Some(i) => i,
            None => {
                return Err(ApiError::new(404, "session_not_found", "session does not exist"));
            },
        };
        let count: usize = match &self.entries[i].transaction {
            Some(statements) => statements.len(),
            None => 0,
        };
        if count >= max_statements {
            return Err(
                ApiError::new(
                    429,
                    "transaction_statement_limit",
                    "transaction statement limit reached",
                ),
            );
        }
        if !supported {
            return Err(ApiError::bad_request("query is not valid or supported"));
        }
        let ghost before = self@;
        let mut statements = match self.extract(i) {
            Some(statements) => statements,
            None => Vec::new(),
        };
        statements.push(statement);
        let ghost queued = statements@;
        let length: u64 = statements.len() as u64;
        self.replace(i, Some(statements));
        proof {
            assert(self@ =~= before.insert(id@, Some(queued)));
        }
        Ok(length)
    }

    fn take(&mut self, id: &str) -> (result: Result<Vec<SessionStatement>, ApiError>)
        requires
            old(self).well_formed(),
        ensures
            final(self).well_formed(),
            end_refusal(old(self)@, id@) == (match result {
                Ok(_) => None,
                Err(error) => Some(error@),
            }),
            result is Ok ==> result->Ok_0@ == old(self)@[id@]->0,
            final(self)@ == ended(old(self)@, id@),
    {
        let i: usize = match self.find(id) {
            Some(i) => i,
            None => {
                return Err(ApiError::new(404, "session_not_found", "session does not exist"));
            },
        };
        if self.entries[i].transaction.is_none() {
            return Err(
                ApiError::new(409, "no_transaction", "session has no active transaction"),
            );
        }
        match self.extract(i) {
            Some(statements) => Ok(statements),
            None => Ok(Vec::new()),
        }
    }

    /// Hands over the statements of a transaction for execution, in their order. Whatever comes of
    /// it, the session queues nothing any more.
    pub fn commit(&mut self, id: &str) -> (result: Result<Vec<SessionStatement>, ApiError>)
        requires
            old(self).well_formed(),
        ensures
            final(self).well_formed(),
            end_refusal(old(self)@, id@) == (match result {
                Ok(_) => None,
                Err(error) => Some(error@),
            }),
            result is Ok ==> result->Ok_0@ == old(self)@[id@]->0,
            final(self)@ == ended(old(self)@, id@),
    {
        self.take(id)
    }

    /// Discards a transaction.
    pub fn rollback(&mut self, id: &str) -> (result: Result<(), ApiError>)
        requires
            old(self).well_formed(),
        ensures
            final(self).well_formed(),
            end_refusal(old(self)@, id@) == (match result {
                Ok(()) => None,
                Err(error) => Some(error@),
            }),
            final(self)@ == ended(old(self)@, id@),
    {
        match self.take(id) {
            Ok(_) => Ok(()),
            Err(error) => Err(error),
        }
    }
}

/// What a statement is refused with inside a transaction of `count` statements, if it is.
pub open spec fn queue_refusal(
    count: nat,
    limited: bool,
    supported: bool,
    max_statements: usize,
) -> Option<ApiView> {
    if limited {
        Some(
            api_view(
                400,
                "bad_request"@,
                "per-request limits are not accepted inside a transaction; the server transaction budget applies at commit"@,
            ),
        )
    } else if count >= max_statements {
        Some(statement_limit_view())
    } else if !supported {
        Some(api_view(400, "bad_request"@, "query is not valid or supported"@))
    } else {
        None
    }
}

proof fn lemma_with_statements(
    queues: Map<Seq<char>, Option<Seq<SessionStatement>>>,
    id: Seq<char>,
    statements: Seq<SessionStatement>,
)
    requires
        queues.dom().contains(id),
        queues[id] is Some,
    ensures
        with_statements(queues, id, statements) == queues.insert(
            id,
            Some(queues[id]->0 + statements),
        ),
    decreases statements.len(),
{
    if statements.len() == 0 {
        assert(queues[id]->0 + statements =~= queues[id]->0);
        assert(queues.insert(id, Some(queues[id]->0 + statements)) =~= queues);
    } else {
        let front = statements.drop_last();
        lemma_with_statements(queues, id, front);
        assert((queues[id]->0 + front).push(statements.last()) =~= queues[id]->0 + statements);
        assert(with_statements(queues, id, statements) =~= queues.insert(
            id,
            Some(queues[id]->0 + statements),
        ));
    }
}

/// Ending a transaction leaves every session as it was before it was begun, whatever was queued
/// in between, and nothing but what was queued is handed over, in its order.
pub proof fn law_transactions_end_where_they_began(
    queues: Map<Seq<char>, Option<Seq<SessionStatement>>>,
    id: Seq<char>,
    statements: Seq<SessionStatement>,
)
    requires
        begin_refusal(queues, id) is None,
    ensures
        ({
            let queued = with_statements(begun(queues, id), id, statements);
            &&& end_refusal(queued, id) is None
            &&& queued[id] == Some(statements)
            &&& ended(queued, id) == queues
        }),
{
    lemma_with_statements(begun(queues, id), id, statements);
    let queued = with_statements(begun(queues, id), id, statements);
    assert(Seq::<SessionStatement>::empty() + statements =~= statements);
    assert(ended(queued, id) =~= queues);
}

/// What a session queues is its own: beginning, queueing and ending a transaction in one session
/// changes no other.
pub proof fn law_sessions_are_isolated(
    queues: Map<Seq<char>, Option<Seq<SessionStatement>>>,
    id: Seq<char>,
    statement: SessionStatement,
    other: Seq<char>,
)
    requires
        other != id,
        queues.dom().contains(other),
    ensures
        begun(queues, id).dom().contains(other),
        begun(queues, id)[other] == queues[other],
        with_statement(queues, id, statement).dom().contains(other),
        with_statement(queues, id, statement)[other] == queues[other],
        ended(queues, id).dom().contains(other),
        ended(queues, id)[other] == queues[other],
{
}

/// A transaction is begun exactly in a session that is there and has none, and then nothing is
/// queued in it. It is ended exactly in a session that has one, and then that session has none.
/// A session that is not there is told first; every refusal leaves all sessions as they are.
pub proof fn law_transactions_begin_and_end_in_turn(
    queues: Map<Seq<char>, Option<Seq<SessionStatement>>>,
    id: Seq<char>,
)
    ensures
        ({
            let there = queues.dom().contains(id);
            let open = queues[id] is Some;
            &&& begin_refusal(queues, id) is None <==> there && !open
            &&& end_refusal(queues, id) is None <==> there && open
            &&& begin_refusal(queues, id) matches Some(refusal) ==> begun(queues, id) == queues
                && if there {
                refusal.status == 409 && refusal.code == "transaction_active"@ && refusal.message
                    == "session already has an active transaction"@
            } else {
                refusal.status == 404 && refusal.code == "session_not_found"@ && refusal.message
                    == "session does not exist"@
            }
            &&& end_refusal(queues, id) matches Some(refusal) ==> ended(queues, id) == queues
                && if there {
                refusal.status == 409 && refusal.code == "no_transaction"@ && refusal.message
                    == "session has no active transaction"@
            } else {
                refusal.status == 404 && refusal.code == "session_not_found"@ && refusal.message
                    == "session does not exist"@
            }
            &&& there && !open ==> begun(queues, id).dom() == queues.dom() && (begun(
                queues,
                id,
            )[id] matches Some(queued) && queued.len() == 0)
            &&& there && open ==> ended(queues, id).dom() == queues.dom() && ended(queues, id)[id]
                is None
        }),
{
    if queues.dom().contains(id) {
        assert(begun(queues, id).dom() =~= queues.dom());
        assert(ended(queues, id).dom() =~= queues.dom());
    }
}

/// A statement is queued exactly where it brings no limits of its own, the transaction has room for
/// it and the query is supported. What is wrong is told in this order.
pub proof fn law_statements_are_queued_within_the_limit(
    count: nat,
    limited: bool,
    supported: bool,
    max_statements: usize,
)
    ensures
        ({
            let refused = queue_refusal(count, limited, supported, max_statements);
            &&& refused is None <==> !limited && count < max_statements && supported
            &&& refused matches Some(refusal) ==> if limited {
                refusal.status == 400 && refusal.code == "bad_request"@ && refusal.message
                    == "per-request limits are not accepted inside a transaction; the server transaction budget applies at commit"@
            } else if count >= max_statements {
                refusal.status == 429 && refusal.code == "transaction_statement_limit"@
                    && refusal.message == "transaction statement limit reached"@
            } else {
                refusal.status == 400 && refusal.code == "bad_request"@ && refusal.message
                    == "query is not valid or supported"@
            }
        }),
{
}

/// A queued statement stands behind those that were queued before, as it is, and in no other
/// session.
pub proof fn law_statements_are_queued_behind(
    queues: Map<Seq<char>, Option<Seq<SessionStatement>>>,
    id: Seq<char>,
    statement: SessionStatement,
)
    requires
        queues.dom().contains(id),
        queues[id] is Some,
    ensures
        with_statement(queues, id, statement).dom() == queues.dom(),
        with_statement(queues, id, statement)[id] matches Some(queued) && {
            let count = queues[id]->0.len() as int;
            &&& queued.len() == count + 1
            &&& queued[count] == statement
            &&& forall|i: int| 0 <= i < count ==> #[trigger] queued[i] == queues[id]->0[i]
        },
{
    assert(with_statement(queues, id, statement).dom() =~= queues.dom());
}

/// A session that is not there, and one too many, are told by stable codes.
pub proof fn law_session_refusals_are_stable()
    ensures
        session_not_found_view() == (ApiView {
            status: 404,
            code: "session_not_found"@,
            message: "session does not exist"@,
        }),
        session_limit_view() == (ApiView {
            status: 429,
            code: "session_limit"@,
            message: "maximum session count reached"@,
        }),
{
}

/// A session is there exactly where an entry has its identity, and what it queues is what that entry
/// holds, statement for statement.
pub proof fn law_sessions_are_their_entries(sessions: Sessions, i: int, id: Seq<char>)
    requires
        sessions.well_formed(),
        0 <= i < sessions.entries@.len(),
    ensures
        sessions@.dom().contains(id) <==> exists|k: int|
            0 <= k < sessions.entries@.len() && (#[trigger] sessions.entries@[k]).id@ == id,
        sessions@.dom().contains(sessions.entries@[i].id@),
        sessions.entries@[i].transaction is None <==> sessions@[sessions.entries@[i].id@] is None,
        sessions.entries@[i].transaction matches Some(statements)
            ==> sessions@[sessions.entries@[i].id@] == Some(statements@),
        forall|a: int, b: int|
            #![trigger sessions.entries@[a], sessions.entries@[b]]
            0 <= a < b < sessions.entries@.len() ==> sessions.entries@[a].id@
                != sessions.entries@[b].id@,
{
    lemma_position(sessions.entries@, i);
    if exists|k: int|
        0 <= k < sessions.entries@.len() && (#[trigger] sessions.entries@[k]).id@ == id {
        assert(has_session(sessions.entries@, id));
    }
}

/// Sessions are sound exactly where no two of them have the same identity.
pub proof fn law_sessions_are_sound(sessions: Sessions)
    ensures
        sessions.well_formed() <==> forall|i: int, j: int|
            #![trigger sessions.entries@[i], sessions.entries@[j]]
            0 <= i < j < sessions.entries@.len() ==> sessions.entries@[i].id@
                != sessions.entries@[j].id@,
{
    if forall|i: int, j: int|
        #![trigger sessions.entries@[i], sessions.entries@[j]]
        0 <= i < j < sessions.entries@.len() ==> sessions.entries@[i].id@
            != sessions.entries@[j].id@ {
        assert forall|i: int, j: int|
            #![trigger sessions.entries@[i], sessions.entries@[j]]
            0 <= i < sessions.entries@.len() && 0 <= j < sessions.entries@.len()
                && sessions.entries@[i].id@ == sessions.entries@[j].id@ implies i == j by {}
    }
}

} // verus!
