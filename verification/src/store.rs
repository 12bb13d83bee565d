//! The persisted project list: a tiny SQL-backed record store.
//!
//! One table, `project`, holds a name and a path per record.  The SQLite
//! work happens behind trusted wrappers; what a query returns depends on
//! the database on disk, so the verified part is the row-to-record mapping
//! and the statements sent.  The host opens the connection.
use vstd::prelude::*;

verus! {

#[verifier::external_type_specification]
#[verifier::external_body]
pub struct ExConnection(rusqlite::Connection);

/// A database failure, carrying the reported error text.
#[derive(Debug)]
pub struct StoreError {
    pub message: String,
}

/// Relies on `rusqlite::Connection::execute` with no bound parameters: runs
/// one SQL statement; the changed-row count or the error depends on the
/// database state.
#[verifier::external_body]
fn db_execute(conn: &rusqlite::Connection, sql: &str) -> (r: Result<usize, StoreError>) {
    match conn.execute(sql, ()) {
        Ok(n) => Ok(n),
        Err(e) => Err(StoreError { message: format!("{e}") }),
    }
}

/// Relies on `rusqlite::Connection::execute` with two bound text
/// parameters; the changed-row count or the error depends on the database
/// state.
#[verifier::external_body]
fn db_execute2(conn: &rusqlite::Connection, sql: &str, p1: &str, p2: &str) -> (r: Result<
    usize,
    StoreError,
>) {
    match conn.execute(sql, (p1, p2)) {
        Ok(n) => Ok(n),
        Err(e) => Err(StoreError { message: format!("{e}") }),
    }
}

/// Relies on `rusqlite::Connection::prepare`, `Statement::query_map` and
/// `Row::get`: runs one two-text-column query with no bound parameters and
/// collects the rows in order; what comes back depends on the database
/// state.
#[verifier::external_body]
fn db_query_pairs(conn: &rusqlite::Connection, sql: &str) -> (r: Result<
    Vec<(String, String)>,
    StoreError,
>) {
    let run = || -> rusqlite::Result<Vec<(String, String)>>
        {
            let mut stmt = conn.prepare(sql)?;
            let rows = stmt.query_map([], |row| Ok((row.get(0)?, row.get(1)?)))?;
            let mut out = Vec::new();
            for row in rows {
                out.push(row?);
            }
            Ok(out)
        };
    match run() {
        Ok(v) => Ok(v),
        Err(e) => Err(StoreError { message: format!("{e}") }),
    }
}

/// One record of the project list.
#[derive(Debug)]
pub struct Project {
    pub project_name: String,
    pub path: String,
}

impl Clone for Project {
    fn clone(&self) -> (r: Self)
        ensures
            r.project_name@ == self.project_name@,
            r.path@ == self.path@,
    {
        Project { project_name: self.project_name.clone(), path: self.path.clone() }
    }
}

/// The record a queried row stands for.
pub open spec fn project_of_row(row: (String, String)) -> Project {
    Project { project_name: row.0, path: row.1 }
}

/// The records for the rows a query returned: one per row, in order, the
/// first column as the name and the second as the path.
pub fn projects_from_rows(rows: Vec<(String, String)>) -> (r: Vec<Project>)
    ensures
        r@.len() == rows@.len(),
        forall|i: int| 0 <= i < rows@.len() ==> r@[i] == project_of_row(#[trigger] rows@[i]),
{
    let mut work = rows;
    let mut r: Vec<Project> = Vec::new();
    let ghost mut i: int = 0;
    proof {
        assert(work@ =~= rows@.skip(0));
    }
    while work.len() > 0
        invariant
            0 <= i,
            i + work@.len() == rows@.len(),
            work@ == rows@.skip(i),
            r@.len() == i,
            forall|k: int| 0 <= k < i ==> r@[k] == project_of_row(#[trigger] rows@[k]),
        decreases work@.len(),
    {
        let row = work.remove(0);
        assert(row == rows@[i]);
        r.push(Project { project_name: row.0, path: row.1 });
        proof {
            assert(work@ =~= rows@.skip(i + 1));
            i = i + 1;
        }
    }
    r
}

/// The project list as loaded at startup, for the home screen to show.
#[derive(Debug)]
pub struct ProjectListResource {
    pub projects: Vec<Project>,
}

impl ProjectListResource {
    /// The resource for the records the host loaded (none when the store
    /// could not be read).
    pub fn new(projects: Vec<Project>) -> (r: Self)
        ensures
            r.projects == projects,
    {
        ProjectListResource { projects }
    }
}

impl Project {
    /// Inserts this record into the `project` table.
    pub fn insert(&self, conn: &rusqlite::Connection) -> (r: Result<usize, StoreError>) {
        let sql = "INSERT INTO project (project_name,path) VALUES(?1,?2)";
        db_execute2(conn, sql, self.project_name.as_str(), self.path.as_str())
    }

    /// Every record of the `project` table, in table order.
    pub fn select_all(conn: &rusqlite::Connection) -> (r: Result<Vec<Project>, StoreError>) {
        let sql = "SELECT project_name,path FROM project ";
        match db_query_pairs(conn, sql) {
            Ok(rows) => Ok(projects_from_rows(rows)),
            Err(e) => Err(e),
        }
    }

    /// The first record the id query returns, if any.
    pub fn select_optional_by_id(conn: &rusqlite::Connection, id: i64) -> (r: Result<
        Option<Project>,
        StoreError,
    >) {
        let sql = "SELECT project_name,path FROM project WHERE  id = ? ";
        match db_query_pairs(conn, sql) {
            Ok(rows) => {
                let mut projects = projects_from_rows(rows);
                if projects.len() == 0 {
                    Ok(None)
                } else {
                    Ok(Some(projects.remove(0)))
                }
            },
            Err(e) => Err(e),
        }
    }

    /// The first record the id query returns; an error when there is none.
    pub fn select_one_by_id(conn: &rusqlite::Connection, id: i64) -> (r: Result<
        Project,
        StoreError,
    >) {
        let sql = "SELECT project_name,path FROM project WHERE  id = ? ";
        match db_query_pairs(conn, sql) {
            Ok(rows) => {
                let mut projects = projects_from_rows(rows);
                if projects.len() == 0 {
                    Err(StoreError { message: "no row returned".to_owned() })
                } else {
                    Ok(projects.remove(0))
                }
            },
            Err(e) => Err(e),
        }
    }

    /// Creates the `project` table; fails when it already exists.
    pub fn create_table(conn: &rusqlite::Connection) -> (r: Result<(), StoreError>) {
        let sql =
            "\n            create table project\n            (\n                project_name text    not null,\n                path         text    not null\n            );\n        ";
        match db_execute(conn, sql) {
            Ok(_n) => Ok(()),
            Err(e) => Err(e),
        }
    }

    /// Inserts this record, first creating the table if it was missing
    /// (a failure to create it is ignored: the table usually exists).
    pub fn insert_data(&self, conn: &rusqlite::Connection) -> (r: Result<(), StoreError>) {
        let created = Self::create_table(conn);
        match created {
            Ok(_u) => (),
            Err(_e) => (),
        }
        match self.insert(conn) {
            Ok(_n) => Ok(()),
            Err(e) => Err(e),
        }
    }
}

} // verus!
