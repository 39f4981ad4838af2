//! The prefix that is kept for a session.
//!
//! The store decides what is asked of the database and what its answer means; the queries
//! themselves are run by whoever holds the pool.

use std::sync::Arc;

use vstd::prelude::*;
use vstd::utf8::encode_utf8;

use crate::error::{StorageError, StoreResult};
use crate::json::{copies, trees, Json, Tree};
use crate::wire::{
    json_of, json_text, list_of, opens_list, parse_list, render, reread, rereadable, MAX_DEPTH,
};

verus! {

/// A session's prefix as the `session_prefix` table holds it.
#[derive(Debug)]
pub struct SessionPrefix {
    /// The session, as the request's session header names it.
    pub session_id: String,
    /// How many leading messages of the client the replacement stands for.
    pub replaced_count: i64,
    /// The messages sent in their place, as the text of a JSON array.
    pub replacement: String,
}

/// A session's prefix, ready to be put into a request.
///
/// It rests on the client sending the same leading messages again: they are counted, not compared.
#[derive(Debug)]
pub struct SessionPrefixData {
    /// How many leading messages of the client `replacement` stands for.
    pub replaced_count: usize,
    /// The messages sent in their place.
    pub replacement: Vec<Json>,
}

/// What a prefix says: so many leading messages are replaced by these.
#[verifier::ext_equal]
pub struct Prefix {
    pub replaced: nat,
    pub replacement: Seq<Tree>,
}

impl View for SessionPrefixData {
    type V = Prefix;

    open spec fn view(&self) -> Prefix {
        Prefix { replaced: self.replaced_count as nat, replacement: trees(self.replacement@) }
    }
}

/// The store of prefixes, over a pool of database connections; without one it is disabled.
#[derive(Debug, Clone)]
pub struct SessionPrefixStore<P> {
    pool: Option<Arc<P>>,
}

/// A look-up to be made: the row of this session, in this database. Its answer is [`row_of`] the
/// session in the table as it stands.
#[derive(Debug)]
pub struct Lookup<'a, P> {
    pub pool: &'a Arc<P>,
    pub session_id: String,
}

/// A write to be made: this row in place of the session's earlier one, in this database. It turns
/// the table into what [`after_write`] says.
#[derive(Debug)]
pub struct Write<'a, P> {
    pub pool: &'a Arc<P>,
    pub row: SessionPrefix,
}

/// The count that a stored number stands for: none where it cannot be a count.
pub open spec fn count_in(stored: i64) -> nat {
    if 0 <= stored <= usize::MAX {
        stored as nat
    } else {
        0
    }
}

/// The number that is stored for a count: the largest one where the count does not fit.
pub open spec fn stored_count(count: usize) -> int {
    if count <= i64::MAX {
        count as int
    } else {
        i64::MAX as int
    }
}

/// What a stored row says, if its replacement is the text of a JSON array.
pub open spec fn prefix_in(row: SessionPrefix) -> Option<Prefix> {
    match list_of(encode_utf8(row.replacement@)) {
        Some(replacement) => Some(Prefix { replaced: count_in(row.replaced_count), replacement }),
        None => None,
    }
}

/// A row holds this prefix of a session: the count as it can be stored, and the text of the list.
pub open spec fn is_row_for(
    row: SessionPrefix,
    session: Seq<char>,
    count: usize,
    replacement: Seq<Tree>,
) -> bool {
    &&& row.session_id@ == session
    &&& row.replaced_count == stored_count(count)
    &&& row.replacement@ == json_text(Tree::Array(replacement))
    &&& opens_list(encode_utf8(row.replacement@))
}

fn read_count(stored: i64) -> (r: usize)
    ensures
        r == count_in(stored),
{
    if 0 <= stored {
        let count: u64 = stored as u64;
        if count <= usize::MAX as u64 {
            return count as usize;
        }
    }
    0
}

fn write_count(count: usize) -> (r: i64)
    ensures
        r == stored_count(count),
{
    if count as u64 <= i64::MAX as u64 {
        count as i64
    } else {
        i64::MAX
    }
}

/// What a row means to whoever asked for it: no entry where there is no row, the prefix that the
/// row holds, or a failure where it holds none.
pub open spec fn is_reading(
    row: Option<SessionPrefix>,
    outcome: StoreResult<Option<SessionPrefixData>>,
) -> bool {
    match row {
        None => outcome matches Ok(None),
        Some(row) => match prefix_in(row) {
            Some(prefix) => outcome matches Ok(Some(data)) && data@ == prefix,
            None => outcome matches Err(StorageError::Json(_)),
        },
    }
}

/// What the answer to a look-up means: a failure of the database, no entry, or an entry.
pub fn found(fetched: Result<Option<SessionPrefix>, String>) -> (r: StoreResult<
    Option<SessionPrefixData>,
>)
    ensures
        match fetched {
            Err(failure) => r matches Err(StorageError::Database(text)) && text@ == failure@,
            Ok(row) => is_reading(row, r),
        },
{
    let row: SessionPrefix = match fetched {
        Err(failure) => {
            return Err(StorageError::Database(failure));
        },
        Ok(None) => {
            return Ok(None);
        },
        Ok(Some(row)) => row,
    };
    match parse_list(row.replacement.as_str()) {
        Err(error) => Err(StorageError::Json(error)),
        Ok(replacement) => Ok(
            Some(SessionPrefixData { replaced_count: read_count(row.replaced_count), replacement }),
        ),
    }
}

/// The rows of the `session_prefix` table, by session.
pub type Rows = Map<Seq<char>, SessionPrefix>;

/// The table after a write: the row takes the place of the session's earlier one.
pub open spec fn after_write(rows: Rows, row: SessionPrefix) -> Rows {
    rows.insert(row.session_id@, row)
}

/// The table after several writes, one after the other.
pub open spec fn after_writes(rows: Rows, writes: Seq<SessionPrefix>) -> Rows
    decreases writes.len(),
{
    if writes.len() == 0 {
        rows
    } else {
        after_write(after_writes(rows, writes.drop_last()), writes.last())
    }
}

/// The row that the table holds for a session.
pub open spec fn row_of(rows: Rows, session: Seq<char>) -> Option<SessionPrefix> {
    if rows.contains_key(session) {
        Some(rows[session])
    } else {
        None
    }
}

/// None of the writes from position `from` on is to this session.
pub open spec fn unwritten_from(writes: Seq<SessionPrefix>, from: int, session: Seq<char>) -> bool {
    forall|i: int| from <= i < writes.len() ==> (#[trigger] writes[i]).session_id@ != session
}

impl<P> SessionPrefixStore<P> {
    /// The database behind the store, if there is one.
    pub closed spec fn database(self) -> Option<Arc<P>> {
        self.pool
    }

    /// A store without a database.
    #[must_use]
    pub fn disabled() -> (r: Self)
        ensures
            r.database() is None,
    {
        SessionPrefixStore { pool: None }
    }

    /// A store over a pool of database connections.
    #[must_use]
    pub fn new(pool: Arc<P>) -> (r: Self)
        ensures
            r.database() == Some(pool),
    {
        SessionPrefixStore { pool: Some(pool) }
    }

    fn pool(&self) -> (r: StoreResult<&Arc<P>>)
        ensures
            match r {
                Ok(pool) => self.database() == Some(*pool),
                Err(error) => self.database() is None && error is NotConfigured,
            },
    {
        match &self.pool {
            Some(pool) => Ok(pool),
            None => Err(StorageError::NotConfigured),
        }
    }

    /// The look-up of a session's prefix; [`found`] says what its answer means.
    pub fn get(&self, session_id: &str) -> (r: StoreResult<Lookup<'_, P>>)
        ensures
            match r {
                Ok(lookup) => self.database() == Some(*lookup.pool) && lookup.session_id@
                    == session_id@,
                Err(error) => self.database() is None && error is NotConfigured,
            },
    {
        match self.pool() {
            Ok(pool) => Ok(Lookup { pool, session_id: session_id.to_owned() }),
            Err(error) => Err(error),
        }
    }

    /// The write of a session's prefix. It is read back as it was exactly where JSON keeps the
    /// messages as they are, which it does at least where they are `rereadable`; a count too large
    /// to be stored is cut down.
    pub fn upsert(&self, session_id: &str, replaced_count: usize, replacement: &[Json]) -> (r:
        StoreResult<Write<'_, P>>)
        ensures
            match r {
                Ok(write) => {
                    let list = Tree::Array(trees(replacement@));
                    let written = Prefix {
                        replaced: replaced_count as nat,
                        replacement: trees(replacement@),
                    };
                    &&& self.database() == Some(*write.pool)
                    &&& is_row_for(write.row, session_id@, replaced_count, trees(replacement@))
                    &&& rereadable(list, MAX_DEPTH as nat) ==> reread(list) == Some(list)
                    &&& replaced_count <= i64::MAX ==> (prefix_in(write.row) == Some(written)
                        <==> json_of(encode_utf8(write.row.replacement@)) == Some(list))
                },
                Err(error) => self.database() is None && error is NotConfigured,
            },
    {
        let replacement: Json = Json::Array(copies(replacement));
        let text: String = match render(&replacement) {
            Ok(text) => text,
            Err(error) => {
                return Err(StorageError::Json(error));
            },
        };
        let replaced_count: i64 = write_count(replaced_count);
        match self.pool() {
            Ok(pool) => Ok(
                Write {
                    pool,
                    row: SessionPrefix {
                        session_id: session_id.to_owned(),
                        replaced_count,
                        replacement: text,
                    },
                },
            ),
            Err(error) => Err(error),
        }
    }
}

/// Writes to other sessions leave a session's row as it was; in a table that began empty, a session
/// that was never written has none.
pub proof fn other_sessions_are_untouched(
    rows: Rows,
    writes: Seq<SessionPrefix>,
    session: Seq<char>,
    outcome: StoreResult<Option<SessionPrefixData>>,
)
    requires
        unwritten_from(writes, 0, session),
        is_reading(row_of(after_writes(rows, writes), session), outcome),
    ensures
        row_of(after_writes(rows, writes), session) == row_of(rows, session),
        is_reading(row_of(rows, session), outcome),
        !rows.contains_key(session) ==> outcome matches Ok(None),
{
    lemma_last_write(rows, writes, 0, session);
    assert(writes.take(0) =~= Seq::empty());
}

/// Writes to other sessions from position `n` on do not show.
proof fn lemma_last_write(rows: Rows, writes: Seq<SessionPrefix>, n: int, session: Seq<char>)
    requires
        0 <= n <= writes.len(),
        unwritten_from(writes, n, session),
    ensures
        row_of(after_writes(rows, writes), session) == row_of(
            after_writes(rows, writes.take(n)),
            session,
        ),
    decreases writes.len(),
{
    if n == writes.len() {
        assert(writes.take(n) =~= writes);
    } else {
        let front = writes.drop_last();
        assert forall|i: int| n <= i < front.len() implies (#[trigger] front[i]).session_id@
            != session by {
            assert(front[i] == writes[i]);
        }
        lemma_last_write(rows, front, n, session);
        assert(front.take(n) =~= writes.take(n));
        assert(writes[writes.len() - 1].session_id@ != session);
    }
}

/// A read gives back the last write to its session, whatever was stored before it and whatever was
/// written to other sessions since: both the count and the messages are those of that write.
pub proof fn last_write_is_read_back(
    rows: Rows,
    writes: Seq<SessionPrefix>,
    last: int,
    session: Seq<char>,
    prefix: Prefix,
    outcome: StoreResult<Option<SessionPrefixData>>,
)
    requires
        0 <= last < writes.len(),
        writes[last].session_id@ == session,
        prefix_in(writes[last]) == Some(prefix),
        unwritten_from(writes, last + 1, session),
        is_reading(row_of(after_writes(rows, writes), session), outcome),
    ensures
        row_of(after_writes(rows, writes), session) == Some(writes[last]),
        outcome matches Ok(Some(data)) && data@ == prefix,
{
    lemma_last_write(rows, writes, last + 1, session);
    let until = writes.take(last + 1);
    assert(until.last() == writes[last]);
}

/// What a write is read as, whatever was written: the messages that JSON reads of the text it
/// writes for them. Where it reads the same messages, the prefix is the one that was written.
pub proof fn a_row_reads_as_it_was_written(
    row: SessionPrefix,
    session: Seq<char>,
    count: usize,
    replacement: Seq<Tree>,
)
    requires
        is_row_for(row, session, count, replacement),
    ensures
        prefix_in(row) == match reread(Tree::Array(replacement)) {
            Some(Tree::Array(items)) => Some(
                Prefix { replaced: count_in(row.replaced_count), replacement: items },
            ),
            _ => None,
        },
        count <= i64::MAX ==> count_in(row.replaced_count) == count,
        count <= i64::MAX ==> (prefix_in(row) == Some(
            Prefix { replaced: count as nat, replacement },
        ) <==> reread(Tree::Array(replacement)) == Some(Tree::Array(replacement))),
{
}

/// A read gives back what the last `upsert` to its session was handed, whatever was stored before it
/// and whatever was written to other sessions since. The messages have to be such that JSON keeps
/// them as they are, and the count such that it can be stored.
pub proof fn last_upsert_is_read_back(
    rows: Rows,
    writes: Seq<SessionPrefix>,
    last: int,
    session: Seq<char>,
    count: usize,
    replacement: Seq<Tree>,
    outcome: StoreResult<Option<SessionPrefixData>>,
)
    requires
        0 <= last < writes.len(),
        is_row_for(writes[last], session, count, replacement),
        count <= i64::MAX,
        reread(Tree::Array(replacement)) == Some(Tree::Array(replacement)),
        unwritten_from(writes, last + 1, session),
        is_reading(row_of(after_writes(rows, writes), session), outcome),
    ensures
        outcome matches Ok(Some(data)) && data.replaced_count == count && trees(
            data.replacement@,
        ) == replacement,
{
    let prefix = Prefix { replaced: count as nat, replacement };
    a_row_reads_as_it_was_written(writes[last], session, count, replacement);
    last_write_is_read_back(rows, writes, last, session, prefix, outcome);
}

} // verus!
