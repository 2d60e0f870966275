//! The abstraction that backends implement and the manager depends on.

use vstd::prelude::*;

verus! {

/// The line that reports a query text as run: a fixed prefix, then the text
/// as it was given.
pub open spec fn query_notice(query: Seq<char>) -> Seq<char> {
    "Menjalankan query: "@ + query
}

/// Builds the line that reports `query` as run.
pub fn make_query_notice(query: &str) -> (notice: String)
    ensures
        notice@ == query_notice(query@),
{
    let mut notice = "Menjalankan query: ".to_string();
    notice.append(query);
    notice
}

/// What a data backend offers to the code above it.
///
/// A backend is known by two values: the line with which it announces a
/// connection, and the rows with which it answers. The rows belong to the
/// backend, not to the query: every query text gets the same answer.
pub trait Database {
    /// The line that announces a connection to this backend.
    spec fn connect_notice(&self) -> Seq<char>;

    /// The rows, in order, with which this backend answers every query.
    spec fn rows(&self) -> Seq<Seq<char>>;

    /// Announces a connection: appends this backend's connection line to
    /// `notices` and leaves the earlier lines as they were.
    fn connect(&self, notices: &mut Vec<String>)
        ensures
            final(notices).deep_view() == old(notices).deep_view().push(self.connect_notice()),
    ;

    /// Runs `query`: appends the line that reports it to `notices`, leaves the
    /// earlier lines as they were, and returns this backend's rows.
    fn query(&self, query: &str, notices: &mut Vec<String>) -> (rows: Vec<String>)
        ensures
            final(notices).deep_view() == old(notices).deep_view().push(query_notice(query@)),
            rows.deep_view() == self.rows(),
    ;
}

} // verus!
