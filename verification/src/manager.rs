//! The manager: the code that works with a database and knows it only
//! through [`Database`].

use vstd::prelude::*;
use crate::database::{query_notice, Database};

verus! {

/// Owns one backend and runs queries on it. The backend is chosen when the
/// manager is made and stays the same for as long as the manager lives.
pub struct DataManager<T: Database> {
    database: T,
}

impl<T: Database> DataManager<T> {
    /// The backend that this manager owns.
    pub closed spec fn database(&self) -> T {
        self.database
    }

    /// One run of [`DataManager::perform_query`] on `query`, as a relation
    /// between the lines before it, the lines after it and the rows returned:
    /// the connection line and then the query line were added, in that order
    /// and behind the earlier lines, and the rows are the backend's own.
    pub open spec fn performs(
        &self,
        query: Seq<char>,
        before: Seq<Seq<char>>,
        after: Seq<Seq<char>>,
        rows: Seq<Seq<char>>,
    ) -> bool {
        &&& after == before.push(self.database().connect_notice()).push(query_notice(query))
        &&& rows == self.database().rows()
    }

    /// Makes a manager that owns `database`.
    pub fn new(database: T) -> (manager: Self)
        ensures
            manager.database() == database,
    {
        DataManager { database }
    }

    /// Connects to the backend, then runs `query` on it, and returns the rows
    /// as the backend gave them. The two lines that the backend produces on
    /// the way are appended to `notices`.
    pub fn perform_query(&self, query: &str, notices: &mut Vec<String>) -> (rows: Vec<String>)
        ensures
            self.performs(
                query@,
                old(notices).deep_view(),
                final(notices).deep_view(),
                rows.deep_view(),
            ),
    {
        self.database.connect(notices);
        self.database.query(query, notices)
    }
}

/// What a manager returns does not depend on the query text: two runs on one
/// manager, on any two texts and from any lines before them, return the same
/// rows, which are the backend's own.
pub proof fn lemma_rows_ignore_query<T: Database>(
    manager: DataManager<T>,
    query1: Seq<char>,
    before1: Seq<Seq<char>>,
    after1: Seq<Seq<char>>,
    rows1: Seq<Seq<char>>,
    query2: Seq<char>,
    before2: Seq<Seq<char>>,
    after2: Seq<Seq<char>>,
    rows2: Seq<Seq<char>>,
)
    requires
        manager.performs(query1, before1, after1, rows1),
        manager.performs(query2, before2, after2, rows2),
    ensures
        rows1 == rows2,
        rows1 == manager.database().rows(),
{
}

/// A query can be repeated: the second of two runs in a row on one manager
/// returns the rows that the first returned, and produces the two lines that
/// the first produced once more, behind them.
pub proof fn lemma_repeated_query<T: Database>(
    manager: DataManager<T>,
    query: Seq<char>,
    before: Seq<Seq<char>>,
    between: Seq<Seq<char>>,
    after: Seq<Seq<char>>,
    rows1: Seq<Seq<char>>,
    rows2: Seq<Seq<char>>,
)
    requires
        manager.performs(query, before, between, rows1),
        manager.performs(query, between, after, rows2),
    ensures
        rows1 == rows2,
        between.len() == before.len() + 2,
        after.len() == before.len() + 4,
        after.subrange(0, before.len() as int) == before,
        after.subrange(before.len() as int, between.len() as int) == after.subrange(
            between.len() as int,
            after.len() as int,
        ),
{
}

/// Within one run the connection line comes before the query line: the run
/// adds exactly two lines behind the earlier ones, the backend's connection
/// line first and the line that reports the query next.
pub proof fn lemma_connect_precedes_query<T: Database>(
    manager: DataManager<T>,
    query: Seq<char>,
    before: Seq<Seq<char>>,
    after: Seq<Seq<char>>,
    rows: Seq<Seq<char>>,
)
    requires
        manager.performs(query, before, after, rows),
    ensures
        after.len() == before.len() + 2,
        after.subrange(0, before.len() as int) == before,
        after[before.len() as int] == manager.database().connect_notice(),
        after[(before.len() + 1) as int] == query_notice(query),
{
}

/// Exchanging the backend changes what is produced, never what is done. Two
/// managers with different backends, run once each on the same query and from
/// the same lines, both add two lines, the connection line and then the query
/// line. The lines agree everywhere but in the connection line, which is each
/// backend's own, as are the rows returned.
pub proof fn lemma_backend_exchange<A: Database, B: Database>(
    first: DataManager<A>,
    second: DataManager<B>,
    query: Seq<char>,
    before: Seq<Seq<char>>,
    after1: Seq<Seq<char>>,
    rows1: Seq<Seq<char>>,
    after2: Seq<Seq<char>>,
    rows2: Seq<Seq<char>>,
)
    requires
        first.performs(query, before, after1, rows1),
        second.performs(query, before, after2, rows2),
    ensures
        after1.len() == before.len() + 2,
        after2.len() == before.len() + 2,
        forall|i: int| 0 <= i < after1.len() && i != before.len() ==> after1[i] == after2[i],
        after1[before.len() as int] == first.database().connect_notice(),
        after2[before.len() as int] == second.database().connect_notice(),
        after1[(before.len() + 1) as int] == query_notice(query),
        rows1 == first.database().rows(),
        rows2 == second.database().rows(),
{
}

} // verus!
