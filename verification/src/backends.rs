//! The two backends that come with the library.
//!
//! Neither holds any data. Each is known by the line with which it announces
//! a connection and by the two rows with which it answers, and both differ
//! from one backend to the other, so that a caller can tell which one ran.

use vstd::prelude::*;
use crate::database::{make_query_notice, query_notice, Database};

verus! {

/// A MySQL backend.
pub struct MySQLDatabase;

/// A PostgreSQL backend.
pub struct PostgreSQLDatabase;

impl Database for MySQLDatabase {
    open spec fn connect_notice(&self) -> Seq<char> {
        "Menghubungkan ke database MySQL..."@
    }

    open spec fn rows(&self) -> Seq<Seq<char>> {
        seq!["Result 1"@, "Result 2"@]
    }

    fn connect(&self, notices: &mut Vec<String>) {
        notices.push("Menghubungkan ke database MySQL...".to_string());
        proof {
            assert(notices.deep_view() =~= old(notices).deep_view().push(self.connect_notice()));
        }
    }

    fn query(&self, query: &str, notices: &mut Vec<String>) -> (rows: Vec<String>) {
        notices.push(make_query_notice(query));
        let rows = vec!["Result 1".to_string(), "Result 2".to_string()];
        proof {
            assert(notices.deep_view() =~= old(notices).deep_view().push(query_notice(query@)));
            assert(rows.deep_view() =~= self.rows());
        }
        rows
    }
}

impl Database for PostgreSQLDatabase {
    open spec fn connect_notice(&self) -> Seq<char> {
        "Menghubungkan ke database PostgreSQL..."@
    }

    open spec fn rows(&self) -> Seq<Seq<char>> {
        seq!["Result 3"@, "Result 4"@]
    }

    fn connect(&self, notices: &mut Vec<String>) {
        notices.push("Menghubungkan ke database PostgreSQL...".to_string());
        proof {
            assert(notices.deep_view() =~= old(notices).deep_view().push(self.connect_notice()));
        }
    }

    fn query(&self, query: &str, notices: &mut Vec<String>) -> (rows: Vec<String>) {
        notices.push(make_query_notice(query));
        let rows = vec!["Result 3".to_string(), "Result 4".to_string()];
        proof {
            assert(notices.deep_view() =~= old(notices).deep_view().push(query_notice(query@)));
            assert(rows.deep_view() =~= self.rows());
        }
        rows
    }
}

/// The two backends can be told apart by what they produce: their connection
/// lines differ, each answers with two rows, and no row of one is a row of
/// the other.
pub proof fn lemma_backends_differ(mysql: MySQLDatabase, postgresql: PostgreSQLDatabase)
    ensures
        mysql.connect_notice() != postgresql.connect_notice(),
        mysql.rows().len() == 2,
        postgresql.rows().len() == 2,
        forall|i: int, j: int| 0 <= i < 2 && 0 <= j < 2 ==> mysql.rows()[i] != postgresql.rows()[j],
{
    reveal_strlit("Menghubungkan ke database MySQL...");
    reveal_strlit("Menghubungkan ke database PostgreSQL...");
    reveal_strlit("Result 1");
    reveal_strlit("Result 2");
    reveal_strlit("Result 3");
    reveal_strlit("Result 4");
    assert(mysql.connect_notice().len() != postgresql.connect_notice().len());
    assert("Result 1"@[7] == '1');
    assert("Result 2"@[7] == '2');
    assert("Result 3"@[7] == '3');
    assert("Result 4"@[7] == '4');
}

} // verus!
