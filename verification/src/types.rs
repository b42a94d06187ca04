//! Data model of the orchestrator.
//!
//! Fragmentation percentages are stored in hundredths of a percent
//! (`2990` is 29.90%); durations are stored in milliseconds.  Both
//! are integers so that every computation over them is exact.

use vstd::prelude::*;
use vstd::string::*;

verus! {

/// A fresh `String` with the same characters.
pub fn copy_string(s: &String) -> (r: String)
    ensures
        r@ == s@,
{
    String::from_str(s.as_str())
}

/// How a connection authenticates against the server.
#[derive(Debug, Clone, Copy, PartialEq, Eq, Structural)]
pub enum AuthType {
    SqlServer,
}

impl Default for AuthType {
    fn default() -> (a: Self)
        ensures
            a == AuthType::SqlServer,
    {
        AuthType::SqlServer
    }
}

/// A server connection profile as held in memory, password included.
#[derive(Debug, Clone)]
pub struct ServerProfile {
    pub id: String,
    pub name: String,
    pub server: String,
    pub port: u16,
    pub auth_type: AuthType,
    pub username: String,
    pub password: String,
    pub encrypt: bool,
    pub trust_server_certificate: bool,
}

impl Default for ServerProfile {
    fn default() -> (p: Self)
        ensures
            p.id@ == Seq::<char>::empty(),
            p.name@ == Seq::<char>::empty(),
            p.server@ == Seq::<char>::empty(),
            p.port == 1433,
            p.auth_type == AuthType::SqlServer,
            p.username@ == Seq::<char>::empty(),
            p.password@ == Seq::<char>::empty(),
            p.encrypt,
            p.trust_server_certificate,
    {
        ServerProfile {
            id: String::new(),
            name: String::new(),
            server: String::new(),
            port: 1433,
            auth_type: AuthType::SqlServer,
            username: String::new(),
            password: String::new(),
            encrypt: true,
            trust_server_certificate: true,
        }
    }
}

/// The persisted form of a profile: everything but the password,
/// which lives only in the operating system's secret store.
#[derive(Debug, Clone)]
pub struct ServerProfileOnDisk {
    pub id: String,
    pub name: String,
    pub server: String,
    pub port: u16,
    pub auth_type: AuthType,
    pub username: String,
    pub encrypt: bool,
    pub trust_server_certificate: bool,
}

impl ServerProfileOnDisk {
    /// Rebuild the in-memory profile from the persisted fields and a
    /// password fetched from the secret store.
    pub fn into_profile(self, password: String) -> (p: ServerProfile)
        ensures
            p.id == self.id,
            p.name == self.name,
            p.server == self.server,
            p.port == self.port,
            p.auth_type == self.auth_type,
            p.username == self.username,
            p.password == password,
            p.encrypt == self.encrypt,
            p.trust_server_certificate == self.trust_server_certificate,
    {
        ServerProfile {
            id: self.id,
            name: self.name,
            server: self.server,
            port: self.port,
            auth_type: self.auth_type,
            username: self.username,
            password,
            encrypt: self.encrypt,
            trust_server_certificate: self.trust_server_certificate,
        }
    }

    /// Strip a profile down to its persisted fields.
    pub fn from_profile(p: ServerProfile) -> (d: ServerProfileOnDisk)
        ensures
            d.id == p.id,
            d.name == p.name,
            d.server == p.server,
            d.port == p.port,
            d.auth_type == p.auth_type,
            d.username == p.username,
            d.encrypt == p.encrypt,
            d.trust_server_certificate == p.trust_server_certificate,
    {
        ServerProfileOnDisk {
            id: p.id,
            name: p.name,
            server: p.server,
            port: p.port,
            auth_type: p.auth_type,
            username: p.username,
            encrypt: p.encrypt,
            trust_server_certificate: p.trust_server_certificate,
        }
    }
}

pub fn default_true() -> (b: bool)
    ensures
        b,
{
    true
}

pub fn default_rebuild_threshold() -> (t: u64)
    ensures
        t == 3000,
{
    3000
}

pub fn default_reorganize_threshold() -> (t: u64)
    ensures
        t == 1000,
{
    1000
}

pub fn default_retry_max_attempts() -> (n: u32)
    ensures
        n == 3,
{
    3
}

pub fn default_retry_base_delay_ms() -> (n: u64)
    ensures
        n == 1000,
{
    1000
}

pub fn default_retry_max_delay_ms() -> (n: u64)
    ensures
        n == 30000,
{
    30000
}

pub fn default_connection_timeout_ms() -> (n: u64)
    ensures
        n == 30000,
{
    30000
}

pub fn default_max_parallel_databases() -> (n: u32)
    ensures
        n == 4,
{
    4
}

/// Options of one maintenance run.  Thresholds are in hundredths of
/// a percent; delays and timeouts in milliseconds; a timeout of 0
/// disables the timeout.
#[derive(Debug, Clone, Copy, PartialEq, Eq, Structural)]
pub struct MaintenanceOptions {
    pub rebuild_online: bool,
    pub free_proc_cache: bool,
    pub rebuild_threshold_centipercent: u64,
    pub reorganize_threshold_centipercent: u64,
    pub retry_max_attempts: u32,
    pub retry_base_delay_ms: u64,
    pub retry_max_delay_ms: u64,
    pub connection_timeout_ms: u64,
    pub request_timeout_ms: u64,
    pub parallel_databases: bool,
    pub max_parallel_databases: u32,
}

impl Default for MaintenanceOptions {
    fn default() -> (o: Self)
        ensures
            o == (MaintenanceOptions {
                rebuild_online: true,
                free_proc_cache: false,
                rebuild_threshold_centipercent: 3000,
                reorganize_threshold_centipercent: 1000,
                retry_max_attempts: 3,
                retry_base_delay_ms: 1000,
                retry_max_delay_ms: 30000,
                connection_timeout_ms: 30000,
                request_timeout_ms: 0,
                parallel_databases: false,
                max_parallel_databases: 4,
            }),
    {
        MaintenanceOptions {
            rebuild_online: true,
            free_proc_cache: false,
            rebuild_threshold_centipercent: 3000,
            reorganize_threshold_centipercent: 1000,
            retry_max_attempts: 3,
            retry_base_delay_ms: 1000,
            retry_max_delay_ms: 30000,
            connection_timeout_ms: 30000,
            request_timeout_ms: 0,
            parallel_databases: false,
            max_parallel_databases: 4,
        }
    }
}

/// One fragmented index as returned by the per-database probe.
#[derive(Debug, Clone)]
pub struct IndexInfo {
    pub database_name: String,
    pub schema_name: String,
    pub table_name: String,
    pub index_name: String,
    pub fragmentation_centipercent: u64,
    pub page_count: i64,
}

/// Two index descriptions carry the same data.
pub open spec fn index_info_like(a: IndexInfo, b: IndexInfo) -> bool {
    &&& a.database_name@ == b.database_name@
    &&& a.schema_name@ == b.schema_name@
    &&& a.table_name@ == b.table_name@
    &&& a.index_name@ == b.index_name@
    &&& a.fragmentation_centipercent == b.fragmentation_centipercent
    &&& a.page_count == b.page_count
}

/// A fresh `IndexInfo` carrying the same data.
pub fn duplicate_index_info(x: &IndexInfo) -> (r: IndexInfo)
    ensures
        index_info_like(r, *x),
{
    IndexInfo {
        database_name: copy_string(&x.database_name),
        schema_name: copy_string(&x.schema_name),
        table_name: copy_string(&x.table_name),
        index_name: copy_string(&x.index_name),
        fragmentation_centipercent: x.fragmentation_centipercent,
        page_count: x.page_count,
    }
}

/// The remediation chosen for one index.
#[derive(Debug, Clone, Copy, PartialEq, Eq, Structural)]
pub enum MaintenanceAction {
    Rebuild,
    Reorganize,
    Skip,
}

/// The terminal record of one index that reached a terminal event.
#[derive(Debug, Clone)]
pub struct IndexResult {
    pub schema_name: String,
    pub table_name: String,
    pub index_name: String,
    pub fragmentation_centipercent: u64,
    pub page_count: i64,
    pub action: MaintenanceAction,
    pub success: bool,
    pub duration_ms: u64,
    pub retry_attempts: u32,
    pub error: Option<String>,
}

/// The outcome of one database's worker.
#[derive(Debug, Clone)]
pub struct DatabaseResult {
    pub database_name: String,
    pub success: bool,
    pub indexes_processed: u32,
    pub indexes_rebuilt: u32,
    pub indexes_reorganized: u32,
    pub indexes_skipped: u32,
    pub total_duration_ms: u64,
    pub errors: Vec<String>,
    pub critical_failure: bool,
    pub manually_skipped: bool,
    pub index_results: Vec<IndexResult>,
}

/// The aggregate outcome of a whole run.
#[derive(Debug, Clone)]
pub struct MaintenanceSummary {
    pub databases_processed: u32,
    pub databases_failed: u32,
    pub databases_skipped: u32,
    pub total_indexes_rebuilt: u32,
    pub total_indexes_reorganized: u32,
    pub total_indexes_skipped: u32,
    pub total_duration_ms: u64,
    pub database_results: Vec<DatabaseResult>,
}

/// One persisted row of run history.
#[derive(Debug, Clone)]
pub struct RunRecord {
    pub id: i64,
    pub profile_id: String,
    pub profile_name: String,
    pub server: String,
    pub started_at: String,
    pub finished_at: String,
    pub databases_processed: u32,
    pub databases_failed: u32,
    pub databases_skipped: u32,
    pub total_indexes_rebuilt: u32,
    pub total_indexes_reorganized: u32,
    pub total_indexes_skipped: u32,
    pub total_duration_ms: u64,
    pub database_results: Vec<DatabaseResult>,
}

} // verus!
