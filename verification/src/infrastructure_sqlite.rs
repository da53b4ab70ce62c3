//! The SQLite-backed lease store: leases persist across restarts.  The
//! relational layer only stages rows; every decision is taken by the same
//! verified scheduler as the in-memory store.  What lies on disk is
//! outside the kernel's knowledge, so the contracts here state what holds
//! of every outcome: the priority cache is exact, listed leases are
//! `Active`, and every acquire verdict comes from the verified Wait-Die
//! decision on some snapshot of active leases.

use vstd::prelude::*;
use vstd::string::StringExecFns;
use crate::primitives::{Predicate, ResourceRef, ResourceType, spec_key, str_eq};
use crate::lease::{Lease, LeaseFailureReason, LeaseResult, LeaseState};
use crate::priority::PriorityMap;
use crate::scheduler::{VerdictStatus, WaitDieScheduler, spec_decide};
use crate::conflict::predicate_name;
use crate::infrastructure::{LeaseStore, LeaseStoreExt, make_lease_id, spec_lease_id};

verus! {

#[verifier::external_type_specification]
#[verifier::external_body]
pub struct ExConnection(rusqlite::Connection);

#[verifier::external_type_specification]
#[verifier::external_body]
pub struct ExRusqliteError(rusqlite::Error);

/// A plain value bound to a SQL statement placeholder.
pub enum SqlArg {
    Text(String),
    Int(u64),
}

/// One row of the `leases` table, column by column.
pub struct LeaseRow {
    pub id: String,
    pub agent_id: String,
    pub session_id: String,
    pub res_type: String,
    pub res_path: String,
    pub predicate: String,
    pub state: String,
    pub acquired_at: u64,
    pub ttl: u64,
    pub expires_at: u64,
    pub last_heartbeat: u64,
}

/// Relies on `rusqlite::Connection::open`: opens (or creates) the
/// database file.  Whether it succeeds depends on the disk.
#[verifier::external_body]
fn open_connection(path: &str) -> Result<rusqlite::Connection, rusqlite::Error> {
    rusqlite::Connection::open(path)
}

/// Relies on `rusqlite::Connection::pragma_update`: sets a pragma on the
/// main schema.
#[verifier::external_body]
fn set_pragma(conn: &rusqlite::Connection, name: &str, value: &str) -> Result<
    (),
    rusqlite::Error,
> {
    conn.pragma_update(None, name, value)
}

/// Relies on `rusqlite::Connection::execute_batch`: runs several SQL
/// statements (here: idempotent schema creation).
#[verifier::external_body]
fn execute_batch_sql(conn: &rusqlite::Connection, sql: &str) -> Result<(), rusqlite::Error> {
    conn.execute_batch(sql)
}

/// Relies on `rusqlite::Connection::execute`: runs one statement with the
/// given arguments and returns how many rows it changed; an error counts
/// as zero rows, as the store treats failed statements as no-ops.
#[verifier::external_body]
fn execute_sql(conn: &rusqlite::Connection, sql: &str, args: &Vec<SqlArg>) -> usize {
    let vals: Vec<rusqlite::types::Value> = args.iter().map(|a| match a {
        SqlArg::Text(s) => rusqlite::types::Value::Text(s.clone()),
        SqlArg::Int(i) => rusqlite::types::Value::Integer(*i as i64),
    }).collect();
    conn.execute(sql, rusqlite::params_from_iter(vals)).unwrap_or(0)
}

/// Relies on `rusqlite::Connection::query_row`: the first column of the
/// first row the statement yields, if any.
#[verifier::external_body]
fn query_u64(conn: &rusqlite::Connection, sql: &str, args: &Vec<SqlArg>) -> Option<u64> {
    let vals: Vec<rusqlite::types::Value> = args.iter().map(|a| match a {
        SqlArg::Text(s) => rusqlite::types::Value::Text(s.clone()),
        SqlArg::Int(i) => rusqlite::types::Value::Integer(*i as i64),
    }).collect();
    conn.query_row(sql, rusqlite::params_from_iter(vals), |row| row.get::<_, i64>(0)).ok().map(
        |v| v as u64,
    )
}

/// Relies on `rusqlite::Statement::query_map` (after
/// `Connection::prepare`): the rows of the `leases` table whose `state`
/// column is `'Active'` — the `WHERE` clause guarantees that column's
/// value in every returned row.  A statement that cannot be prepared or
/// run (I/O error, locked or corrupted file) comes back as the error, so
/// the verified callers decide what an unreadable backend means.
#[verifier::external_body]
fn select_active_lease_rows(conn: &rusqlite::Connection) -> (r: Result<
    Vec<LeaseRow>,
    rusqlite::Error,
>)
    ensures
        r matches Ok(rows) ==> forall|k: int| 0 <= k < rows@.len() ==> rows@[k].state@
            == "Active"@,
{
    let mut stmt = conn.prepare(
        "SELECT id, agent_id, session_id, res_type, res_path, predicate, state, acquired_at, ttl, expires_at, last_heartbeat FROM leases WHERE state = 'Active'",
    )?;
    let rows = stmt.query_map([], |row| Ok(LeaseRow {
        id: row.get(0)?, agent_id: row.get(1)?, session_id: row.get(2)?,
        res_type: row.get(3)?, res_path: row.get(4)?, predicate: row.get(5)?,
        state: row.get(6)?, acquired_at: row.get::<_, i64>(7)? as u64,
        ttl: row.get::<_, i64>(8)? as u64, expires_at: row.get::<_, i64>(9)? as u64,
        last_heartbeat: row.get::<_, i64>(10)? as u64,
    }))?;
    Ok(rows.filter_map(|x| x.ok()).collect())
}

/// Relies on `rusqlite::Statement::query_map` (after
/// `Connection::prepare`): the rows of the `agent_priorities` table.
#[verifier::external_body]
fn select_priority_rows(conn: &rusqlite::Connection) -> Vec<(String, u64)> {
    let mut stmt = match conn.prepare("SELECT agent_id, priority FROM agent_priorities") {
        Ok(s) => s,
        Err(_) => return Vec::new(),
    };
    let rows = stmt.query_map([], |row| Ok((row.get(0)?, row.get::<_, i64>(1)? as u64)));
    match rows {
        Ok(it) => it.filter_map(|x| x.ok()).collect(),
        Err(_) => Vec::new(),
    }
}

/// Relies on `rusqlite::Error`'s `Display` impl: a human-readable
/// description of the error.
#[verifier::external_body]
pub(crate) fn describe_error(e: &rusqlite::Error) -> String {
    format!("{}", e)
}

/// The predicate persisted under a plain variant name; anything unknown
/// falls back to `Consumes`.
pub open spec fn spec_parse_predicate_name(s: Seq<char>) -> Predicate {
    if s == "Provides"@ {
        Predicate::Provides
    } else if s == "Consumes"@ {
        Predicate::Consumes
    } else if s == "Mutates"@ {
        Predicate::Mutates
    } else if s == "Deletes"@ {
        Predicate::Deletes
    } else if s == "DependsOn"@ {
        Predicate::DependsOn
    } else if s == "Renames"@ {
        Predicate::Renames
    } else {
        Predicate::Consumes
    }
}

/// The resource type persisted under a plain variant name; anything
/// unknown falls back to `File`.
pub open spec fn spec_parse_type_name(s: Seq<char>) -> ResourceType {
    if s == "File"@ {
        ResourceType::File
    } else if s == "Symbol"@ {
        ResourceType::Symbol
    } else if s == "ApiEndpoint"@ {
        ResourceType::ApiEndpoint
    } else if s == "DatabaseTable"@ {
        ResourceType::DatabaseTable
    } else if s == "ConfigKey"@ {
        ResourceType::ConfigKey
    } else {
        ResourceType::File
    }
}

/// The lease state persisted under a plain variant name; anything unknown
/// falls back to `Active`.
pub open spec fn spec_parse_state_name(s: Seq<char>) -> LeaseState {
    if s == "Active"@ {
        LeaseState::Active
    } else if s == "Expired"@ {
        LeaseState::Expired
    } else if s == "Released"@ {
        LeaseState::Released
    } else if s == "Revoked"@ {
        LeaseState::Revoked
    } else {
        LeaseState::Active
    }
}

fn parse_predicate_name(s: &str) -> (r: Predicate)
    ensures
        r == spec_parse_predicate_name(s@),
{
    if str_eq(s, "Provides") {
        Predicate::Provides
    } else if str_eq(s, "Consumes") {
        Predicate::Consumes
    } else if str_eq(s, "Mutates") {
        Predicate::Mutates
    } else if str_eq(s, "Deletes") {
        Predicate::Deletes
    } else if str_eq(s, "DependsOn") {
        Predicate::DependsOn
    } else if str_eq(s, "Renames") {
        Predicate::Renames
    } else {
        Predicate::Consumes
    }
}

fn parse_type_name(s: &str) -> (r: ResourceType)
    ensures
        r == spec_parse_type_name(s@),
{
    if str_eq(s, "File") {
        ResourceType::File
    } else if str_eq(s, "Symbol") {
        ResourceType::Symbol
    } else if str_eq(s, "ApiEndpoint") {
        ResourceType::ApiEndpoint
    } else if str_eq(s, "DatabaseTable") {
        ResourceType::DatabaseTable
    } else if str_eq(s, "ConfigKey") {
        ResourceType::ConfigKey
    } else {
        ResourceType::File
    }
}

fn parse_state_name(s: &str) -> (r: LeaseState)
    ensures
        r == spec_parse_state_name(s@),
{
    if str_eq(s, "Active") {
        LeaseState::Active
    } else if str_eq(s, "Expired") {
        LeaseState::Expired
    } else if str_eq(s, "Released") {
        LeaseState::Released
    } else if str_eq(s, "Revoked") {
        LeaseState::Revoked
    } else {
        LeaseState::Active
    }
}

/// The lease a persisted row describes.
pub open spec fn spec_row_lease(row: LeaseRow) -> Lease {
    Lease {
        id: row.id,
        agent_id: row.agent_id,
        session_id: row.session_id,
        resource: ResourceRef { resource_type: spec_parse_type_name(row.res_type@), path: row.res_path },
        predicate: spec_parse_predicate_name(row.predicate@),
        state: spec_parse_state_name(row.state@),
        acquired_at: row.acquired_at,
        ttl: row.ttl,
        expires_at: row.expires_at,
        last_heartbeat: row.last_heartbeat,
    }
}

fn row_to_lease(row: &LeaseRow) -> (l: Lease)
    ensures
        l == spec_row_lease(*row),
{
    Lease {
        id: row.id.clone(),
        agent_id: row.agent_id.clone(),
        session_id: row.session_id.clone(),
        resource: ResourceRef {
            resource_type: parse_type_name(row.res_type.as_str()),
            path: row.res_path.clone(),
        },
        predicate: parse_predicate_name(row.predicate.as_str()),
        state: parse_state_name(row.state.as_str()),
        acquired_at: row.acquired_at,
        ttl: row.ttl,
        expires_at: row.expires_at,
        last_heartbeat: row.last_heartbeat,
    }
}

/// The acquire verdict the verified Wait-Die decision yields against the
/// snapshot of active leases `snapshot`, translated into a
/// [`LeaseResult`].
pub open spec fn sqlite_acquire_outcome(
    prios: Map<Seq<char>, u64>,
    agent: Seq<char>,
    session: Seq<char>,
    resource: ResourceRef,
    predicate: Predicate,
    ttl: u64,
    now: u64,
    r: LeaseResult,
    snapshot: Seq<Lease>,
) -> bool {
    let sd = spec_decide(agent, predicate, spec_key(resource), snapshot, prios);
    (forall|k: int| 0 <= k < snapshot.len() ==> snapshot[k].state is Active) && match sd.status {
        VerdictStatus::Granted => r matches LeaseResult::Success { lease } && lease.id@
            == spec_lease_id(agent, now) && lease.agent_id@ == agent && lease.session_id@
            == session && lease.resource == resource && lease.predicate == predicate
            && lease.state is Active && lease.acquired_at == now && lease.ttl == ttl
            && lease.expires_at == now + ttl && lease.last_heartbeat == now,
        VerdictStatus::Wait => r matches LeaseResult::Failure { reason, existing_lease, wait_time }
            && reason is Wait && existing_lease is None && wait_time is None,
        VerdictStatus::Die => r matches LeaseResult::Failure { reason, existing_lease, wait_time }
            && reason is Die && existing_lease is None && wait_time == sd.retry_after_ms,
    }
}

/// A persistent lease store backed by SQLite, in WAL mode with relaxed
/// durability.  Priorities are written through on registration and cached
/// in memory for reads.
pub struct SqliteLeaseStore {
    conn: rusqlite::Connection,
    priorities: PriorityMap,
}

impl SqliteLeaseStore {
    /// The cached priorities (the table is write-through).
    pub closed spec fn prios(&self) -> Map<Seq<char>, u64> {
        self.priorities@
    }

    /// Opens (or creates) a SQLite database at the given path, ensures
    /// the schema exists, and preloads the priority map.
    pub fn open(path: &str) -> Result<SqliteLeaseStore, rusqlite::Error> {
        let conn = match open_connection(path) {
            Ok(c) => c,
            Err(e) => {
                return Err(e);
            },
        };

        // WAL mode for concurrent read performance; NORMAL durability for
        // throughput.
        match set_pragma(&conn, "journal_mode", "WAL") {
            Ok(u) => u,
            Err(e) => {
                return Err(e);
            },
        }
        match set_pragma(&conn, "synchronous", "NORMAL") {
            Ok(u) => u,
            Err(e) => {
                return Err(e);
            },
        }

        match execute_batch_sql(
            &conn,
            "CREATE TABLE IF NOT EXISTS leases (
                id          TEXT PRIMARY KEY,
                agent_id    TEXT NOT NULL,
                session_id  TEXT NOT NULL,
                res_type    TEXT NOT NULL,
                res_path    TEXT NOT NULL,
                predicate   TEXT NOT NULL,
                state       TEXT NOT NULL DEFAULT 'Active',
                acquired_at INTEGER NOT NULL,
                ttl         INTEGER NOT NULL,
                expires_at  INTEGER NOT NULL,
                last_heartbeat INTEGER NOT NULL
            );
            CREATE INDEX IF NOT EXISTS idx_leases_state ON leases(state);
            CREATE INDEX IF NOT EXISTS idx_leases_resource ON leases(res_type, res_path);

            CREATE TABLE IF NOT EXISTS agent_priorities (
                agent_id TEXT PRIMARY KEY,
                priority INTEGER NOT NULL
            );",
        ) {
            Ok(u) => u,
            Err(e) => {
                return Err(e);
            },
        }

        // Load priorities into memory for fast access.
        let rows = select_priority_rows(&conn);
        let mut priorities = PriorityMap::new();
        let n = rows.len();
        let mut i: usize = 0;
        while i < n
            invariant
                n == rows@.len(),
                i <= n,
            decreases n - i,
        {
            priorities.insert(rows[i].0.clone(), rows[i].1);
            i = i + 1;
        }

        Ok(SqliteLeaseStore { conn, priorities })
    }

    /// Registers an agent's priority stamp, write-through to the table.
    pub fn register_agent_priority(&mut self, agent_id: String, priority: u64)
        ensures
            final(self).prios() == old(self).prios().insert(agent_id@, priority),
    {
        let mut args: Vec<SqlArg> = Vec::new();
        args.push(SqlArg::Text(agent_id.clone()));
        args.push(SqlArg::Int(priority));
        execute_sql(
            &self.conn,
            "INSERT OR REPLACE INTO agent_priorities (agent_id, priority) VALUES (?1, ?2)",
            &args,
        );
        self.priorities.insert(agent_id, priority);
    }

    /// A copy of the cached priority map.
    pub fn get_priorities(&self) -> (r: PriorityMap)
        ensures
            r@ == self.prios(),
    {
        self.priorities.duplicate()
    }

    /// The active leases, or `None` when the backend cannot be read.
    /// Acquisition fails closed on `None`; only the listing view degrades.
    pub fn try_get_active_leases(&self) -> (r: Option<Vec<Lease>>)
        ensures
            r matches Some(leases) ==> forall|k: int|
                0 <= k < leases@.len() ==> leases@[k].state is Active,
    {
        let rows = match select_active_lease_rows(&self.conn) {
            Ok(rows) => rows,
            Err(_) => {
                return None;
            },
        };
        let mut out: Vec<Lease> = Vec::new();
        let n = rows.len();
        let mut i: usize = 0;
        while i < n
            invariant
                n == rows@.len(),
                i <= n,
                forall|k: int| 0 <= k < rows@.len() ==> rows@[k].state@ == "Active"@,
                forall|k: int| 0 <= k < out@.len() ==> out@[k].state is Active,
            decreases n - i,
        {
            out.push(row_to_lease(&rows[i]));
            i = i + 1;
        }
        Some(out)
    }
}

impl LeaseStore for SqliteLeaseStore {
    open spec fn wf(&self) -> bool {
        true
    }

    /// What the database returns is outside the kernel's knowledge, so
    /// acquire promises this much: the priority cache is untouched, and
    /// either the verdict is the verified Wait-Die decision against some
    /// all-`Active` snapshot of leases, translated exactly as the
    /// in-memory store translates it, or the backend could not be read
    /// and the request fails closed as `ResourceLocked`.
    open spec fn acquire_ens(
        pre: Self,
        post: Self,
        agent: Seq<char>,
        session: Seq<char>,
        resource: ResourceRef,
        predicate: Predicate,
        ttl: u64,
        now: u64,
        r: LeaseResult,
    ) -> bool {
        &&& post.prios() == pre.prios()
        &&& {
            ||| exists|snapshot: Seq<Lease>|
                sqlite_acquire_outcome(
                    pre.prios(),
                    agent,
                    session,
                    resource,
                    predicate,
                    ttl,
                    now,
                    r,
                    snapshot,
                )
            ||| (r matches LeaseResult::Failure { reason, existing_lease, wait_time }
                && reason is ResourceLocked && existing_lease is None && wait_time is None)
        }
    }

    open spec fn release_ens(pre: Self, post: Self, lease_id: Seq<char>, r: bool) -> bool {
        post.prios() == pre.prios()
    }

    open spec fn heartbeat_ens(pre: Self, post: Self, lease_id: Seq<char>, now: u64, r: bool) -> bool {
        post.prios() == pre.prios()
    }

    /// Active queries never see a terminal lease: the statement's `WHERE`
    /// clause admits only `'Active'` rows.
    open spec fn active_ens(&self, r: Seq<Lease>) -> bool {
        forall|k: int| 0 <= k < r.len() ==> r[k].state is Active
    }

    open spec fn evict_ens(pre: Self, post: Self, now: u64, r: usize) -> bool {
        post.prios() == pre.prios()
    }

    fn acquire(
        &mut self,
        agent_id: &str,
        session_id: &str,
        resource: ResourceRef,
        predicate: Predicate,
        ttl: u64,
        now: u64,
    ) -> (r: LeaseResult) {
        // Evict expired leases first so stale holders cannot block.
        self.evict_expired(now);

        // An unreadable backend must not look like an empty lease set: a
        // grant on that basis could hand two writers the same resource.
        // Fail closed instead.
        let active_leases = match self.try_get_active_leases() {
            Some(leases) => leases,
            None => {
                return LeaseResult::Failure {
                    reason: LeaseFailureReason::ResourceLocked,
                    existing_lease: None,
                    wait_time: None,
                };
            },
        };

        let verdict = WaitDieScheduler::decide(
            agent_id,
            predicate,
            &resource,
            active_leases.as_slice(),
            &self.priorities,
        );
        let ghost snapshot = active_leases@;

        let result = match verdict.status {
            VerdictStatus::Wait => LeaseResult::Failure {
                reason: LeaseFailureReason::Wait,
                existing_lease: None,
                wait_time: None,
            },
            VerdictStatus::Die => LeaseResult::Failure {
                reason: LeaseFailureReason::Die,
                existing_lease: None,
                wait_time: verdict.retry_after_ms,
            },
            VerdictStatus::Granted => {
                let lease_id = make_lease_id(agent_id, now);
                let lease = Lease::new(
                    lease_id,
                    agent_id.to_owned(),
                    session_id.to_owned(),
                    resource,
                    predicate,
                    ttl,
                    now,
                );

                let mut args: Vec<SqlArg> = Vec::new();
                args.push(SqlArg::Text(lease.id.clone()));
                args.push(SqlArg::Text(lease.agent_id.clone()));
                args.push(SqlArg::Text(lease.session_id.clone()));
                args.push(SqlArg::Text(lease.resource.resource_type.name().to_owned()));
                args.push(SqlArg::Text(lease.resource.path.clone()));
                args.push(SqlArg::Text(predicate_name(lease.predicate).to_owned()));
                args.push(SqlArg::Int(lease.acquired_at));
                args.push(SqlArg::Int(lease.ttl));
                args.push(SqlArg::Int(lease.expires_at));
                args.push(SqlArg::Int(lease.last_heartbeat));
                execute_sql(
                    &self.conn,
                    "INSERT INTO leases (id, agent_id, session_id, res_type, res_path, predicate, state, acquired_at, ttl, expires_at, last_heartbeat) VALUES (?1, ?2, ?3, ?4, ?5, ?6, 'Active', ?7, ?8, ?9, ?10)",
                    &args,
                );

                LeaseResult::Success { lease }
            },
        };
        proof {
            assert(sqlite_acquire_outcome(
                old(self).prios(),
                agent_id@,
                session_id@,
                resource,
                predicate,
                ttl,
                now,
                result,
                snapshot,
            ));
        }
        result
    }

    fn release(&mut self, lease_id: &str) -> (r: bool) {
        let mut args: Vec<SqlArg> = Vec::new();
        args.push(SqlArg::Text(lease_id.to_owned()));
        let rows = execute_sql(
            &self.conn,
            "UPDATE leases SET state = 'Released' WHERE id = ?1 AND state = 'Active'",
            &args,
        );
        rows > 0
    }

    fn heartbeat(&mut self, lease_id: &str, now: u64) -> (r: bool) {
        // Fetch the lease's TTL to compute the renewed expiry.
        let mut qargs: Vec<SqlArg> = Vec::new();
        qargs.push(SqlArg::Text(lease_id.to_owned()));
        let ttl = query_u64(
            &self.conn,
            "SELECT ttl FROM leases WHERE id = ?1 AND state = 'Active'",
            &qargs,
        );

        match ttl {
            Some(t) => {
                if t <= u64::MAX - now {
                    let new_expires = now + t;
                    let mut args: Vec<SqlArg> = Vec::new();
                    args.push(SqlArg::Int(now));
                    args.push(SqlArg::Int(new_expires));
                    args.push(SqlArg::Text(lease_id.to_owned()));
                    let rows = execute_sql(
                        &self.conn,
                        "UPDATE leases SET last_heartbeat = ?1, expires_at = ?2 WHERE id = ?3 AND state = 'Active'",
                        &args,
                    );
                    rows > 0
                } else {
                    // The renewed expiry cannot be represented.
                    false
                }
            },
            None => false,
        }
    }

    fn get_active_leases(&self) -> (r: Vec<Lease>) {
        // The listing view degrades to an empty snapshot when the backend
        // cannot be read; acquisition never takes this path on failure.
        match self.try_get_active_leases() {
            Some(leases) => leases,
            None => Vec::new(),
        }
    }

    fn evict_expired(&mut self, now: u64) -> (r: usize) {
        let mut args: Vec<SqlArg> = Vec::new();
        args.push(SqlArg::Int(now));
        execute_sql(
            &self.conn,
            "UPDATE leases SET state = 'Expired' WHERE state = 'Active' AND expires_at < ?1",
            &args,
        )
    }
}

impl LeaseStoreExt for SqliteLeaseStore {
    open spec fn priorities_model(&self) -> Map<Seq<char>, u64> {
        self.prios()
    }

    open spec fn register_ens(pre: Self, post: Self) -> bool {
        true
    }

    fn register_agent_priority(&mut self, agent_id: String, priority: u64) {
        SqliteLeaseStore::register_agent_priority(self, agent_id, priority);
    }

    fn get_priorities(&self) -> (r: PriorityMap) {
        SqliteLeaseStore::get_priorities(self)
    }
}

} // verus!
