//! The options of a data node and their defaults.

use vstd::prelude::*;
use vstd::std_specs::convert::FromSpecImpl;
use vstd::string::StringExecFns;

verus! {

pub const KIB: u64 = 1024;

pub const MIB: u64 = 1048576;

pub const GIB: u64 = 1073741824;

/// A size in bytes.
#[derive(Debug, Clone, Copy, PartialEq, Eq, Structural)]
pub struct ReadableSize(pub u64);

impl ReadableSize {
    pub fn kb(count: u64) -> (size: ReadableSize)
        requires
            count * KIB <= u64::MAX,
        ensures
            size.0 == count * KIB,
    {
        ReadableSize(count * KIB)
    }

    pub fn mb(count: u64) -> (size: ReadableSize)
        requires
            count * MIB <= u64::MAX,
        ensures
            size.0 == count * MIB,
    {
        ReadableSize(count * MIB)
    }

    pub fn gb(count: u64) -> (size: ReadableSize)
        requires
            count * GIB <= u64::MAX,
        ensures
            size.0 == count * GIB,
    {
        ReadableSize(count * GIB)
    }

    pub fn as_bytes(&self) -> (bytes: u64)
        ensures
            bytes == self.0,
    {
        self.0
    }
}

/// Capacity of the object store cache where none is configured.
pub fn default_object_store_cache_size() -> (size: ReadableSize)
    ensures
        size.0 == 1024,
{
    ReadableSize(1024)
}

/// How a node takes part in a deployment.
#[derive(Debug, Clone, Copy, PartialEq, Eq, Structural)]
pub enum Mode {
    Standalone,
    Distributed,
}

/// Storage in the local file system.
#[derive(Debug, Clone, PartialEq, Eq)]
pub struct FileConfig {
    pub data_dir: String,
}

impl Default for FileConfig {
    fn default() -> (config: FileConfig)
        ensures
            config.data_dir@ == Seq::<char>::empty(),
    {
        FileConfig { data_dir: String::new() }
    }
}

/// Storage in an S3 bucket.
#[derive(Debug, Clone, PartialEq, Eq)]
pub struct S3Config {
    pub bucket: String,
    pub root: String,
    pub access_key_id: String,
    pub secret_access_key: String,
    pub endpoint: Option<String>,
    pub region: Option<String>,
    pub cache_path: Option<String>,
    pub cache_capacity: Option<ReadableSize>,
}

impl Default for S3Config {
    fn default() -> (config: S3Config)
        ensures
            config.bucket@ == Seq::<char>::empty(),
            config.root@ == Seq::<char>::empty(),
            config.access_key_id@ == Seq::<char>::empty(),
            config.secret_access_key@ == Seq::<char>::empty(),
            config.endpoint is None,
            config.region is None,
            config.cache_path is None,
            config.cache_capacity is None,
    {
        S3Config {
            bucket: String::new(),
            root: String::new(),
            access_key_id: String::new(),
            secret_access_key: String::new(),
            endpoint: None,
            region: None,
            cache_path: None,
            cache_capacity: None,
        }
    }
}

/// Storage in an OSS bucket.
#[derive(Debug, Clone, PartialEq, Eq)]
pub struct OssConfig {
    pub bucket: String,
    pub root: String,
    pub access_key_id: String,
    pub access_key_secret: String,
    pub endpoint: String,
    pub cache_path: Option<String>,
    pub cache_capacity: Option<ReadableSize>,
}

impl Default for OssConfig {
    fn default() -> (config: OssConfig)
        ensures
            config.bucket@ == Seq::<char>::empty(),
            config.root@ == Seq::<char>::empty(),
            config.access_key_id@ == Seq::<char>::empty(),
            config.access_key_secret@ == Seq::<char>::empty(),
            config.endpoint@ == Seq::<char>::empty(),
            config.cache_path is None,
            config.cache_capacity is None,
    {
        OssConfig {
            bucket: String::new(),
            root: String::new(),
            access_key_id: String::new(),
            access_key_secret: String::new(),
            endpoint: String::new(),
            cache_path: None,
            cache_capacity: None,
        }
    }
}

/// Where a node keeps its objects.
#[derive(Debug, Clone, PartialEq, Eq)]
pub enum ObjectStoreConfig {
    File(FileConfig),
    S3(S3Config),
    Oss(OssConfig),
}

impl ObjectStoreConfig {
    /// Whether the store is the local directory `dir`.
    pub open spec fn is_file_at(self, dir: Seq<char>) -> bool {
        self matches ObjectStoreConfig::File(file) && file.data_dir@ == dir
    }
}

impl Default for ObjectStoreConfig {
    fn default() -> (config: ObjectStoreConfig)
        ensures
            config.is_file_at("/tmp/greptimedb/data/"@),
    {
        ObjectStoreConfig::File(FileConfig { data_dir: String::from_str("/tmp/greptimedb/data/") })
    }
}

/// Options of the write-ahead log.
#[derive(Debug, Clone, PartialEq, Eq)]
pub struct WalConfig {
    /// Directory of the log.
    pub dir: String,
    /// Size of one log file.
    pub file_size: ReadableSize,
    /// Size of the log above which it is purged.
    pub purge_threshold: ReadableSize,
    /// Time between two purges, in milliseconds.
    pub purge_interval: u64,
    pub read_batch_size: usize,
    /// Whether a log file is synced after every write.
    pub sync_write: bool,
}

impl Default for WalConfig {
    fn default() -> (config: WalConfig)
        ensures
            config.dir@ == "/tmp/greptimedb/wal"@,
            config.file_size.0 == GIB,
            config.purge_threshold.0 == 50 * GIB,
            config.purge_interval == 600_000,
            config.read_batch_size == 128,
            !config.sync_write,
    {
        WalConfig {
            dir: String::from_str("/tmp/greptimedb/wal"),
            file_size: ReadableSize::gb(1),
            purge_threshold: ReadableSize::gb(50),
            purge_interval: 600_000,
            read_batch_size: 128,
            sync_write: false,
        }
    }
}

/// Options of table compaction.
#[derive(Debug, Clone, Copy, PartialEq, Eq, Structural)]
pub struct CompactionConfig {
    /// Number of compaction tasks that may run at once.
    pub max_inflight_tasks: usize,
    /// Number of files in level 0 at which a compaction is due.
    pub max_files_in_level0: usize,
    /// Number of purge tasks that may run at once.
    pub max_purge_tasks: usize,
}

impl Default for CompactionConfig {
    fn default() -> (config: CompactionConfig)
        ensures
            config == (CompactionConfig {
                max_inflight_tasks: 4,
                max_files_in_level0: 8,
                max_purge_tasks: 32,
            }),
    {
        CompactionConfig { max_inflight_tasks: 4, max_files_in_level0: 8, max_purge_tasks: 32 }
    }
}

/// What the task scheduler takes from the options.
#[derive(Debug, Clone, Copy, PartialEq, Eq, Structural)]
pub struct SchedulerConfig {
    pub max_inflight_tasks: usize,
}

/// What the storage engine takes from the options.
#[derive(Debug, Clone, Copy, PartialEq, Eq, Structural)]
pub struct StorageEngineConfig {
    pub max_files_in_l0: usize,
    pub max_purge_tasks: usize,
}

impl From<&DatanodeOptions> for SchedulerConfig {
    fn from(value: &DatanodeOptions) -> (config: SchedulerConfig) {
        SchedulerConfig { max_inflight_tasks: value.compaction.max_inflight_tasks }
    }
}

impl FromSpecImpl<&DatanodeOptions> for SchedulerConfig {
    open spec fn obeys_from_spec() -> bool {
        true
    }

    open spec fn from_spec(value: &DatanodeOptions) -> SchedulerConfig {
        SchedulerConfig { max_inflight_tasks: value.compaction.max_inflight_tasks }
    }
}

impl From<&DatanodeOptions> for StorageEngineConfig {
    fn from(value: &DatanodeOptions) -> (config: StorageEngineConfig) {
        StorageEngineConfig {
            max_files_in_l0: value.compaction.max_files_in_level0,
            max_purge_tasks: value.compaction.max_purge_tasks,
        }
    }
}

impl FromSpecImpl<&DatanodeOptions> for StorageEngineConfig {
    open spec fn obeys_from_spec() -> bool {
        true
    }

    open spec fn from_spec(value: &DatanodeOptions) -> StorageEngineConfig {
        StorageEngineConfig {
            max_files_in_l0: value.compaction.max_files_in_level0,
            max_purge_tasks: value.compaction.max_purge_tasks,
        }
    }
}

/// Options of the procedure manager.
#[derive(Debug, Clone, PartialEq, Eq)]
pub struct ProcedureConfig {
    /// Where the procedure manager keeps its state.
    pub store: ObjectStoreConfig,
    /// Number of times a procedure is tried again.
    pub max_retry_times: usize,
    /// Delay before the first retry, in milliseconds.
    pub retry_delay: u64,
}

impl Default for ProcedureConfig {
    fn default() -> (config: ProcedureConfig)
        ensures
            config.store.is_file_at("/tmp/greptimedb/procedure/"@),
            config.max_retry_times == 3,
            config.retry_delay == 500,
    {
        ProcedureConfig {
            store: ObjectStoreConfig::File(
                FileConfig { data_dir: String::from_str("/tmp/greptimedb/procedure/") },
            ),
            max_retry_times: 3,
            retry_delay: 500,
        }
    }
}

impl ProcedureConfig {
    /// The default options, with the state kept in the local directory `path`.
    pub fn from_file_path(path: String) -> (config: ProcedureConfig)
        ensures
            config.store.is_file_at(path@),
            config.max_retry_times == 3,
            config.retry_delay == 500,
    {
        ProcedureConfig {
            store: ObjectStoreConfig::File(FileConfig { data_dir: path }),
            max_retry_times: 3,
            retry_delay: 500,
        }
    }
}

/// Options of the client of the metadata server.
#[derive(Debug, Clone, PartialEq, Eq)]
pub struct MetaClientOptions {
    pub metasrv_addrs: Vec<String>,
    pub timeout_millis: u64,
    pub connect_timeout_millis: u64,
    pub tcp_nodelay: bool,
}

/// All options of a data node.
#[derive(Debug, Clone, PartialEq, Eq)]
pub struct DatanodeOptions {
    pub mode: Mode,
    pub enable_memory_catalog: bool,
    pub node_id: Option<u64>,
    pub rpc_addr: String,
    pub rpc_hostname: Option<String>,
    pub rpc_runtime_size: usize,
    pub mysql_addr: String,
    pub mysql_runtime_size: usize,
    pub meta_client_options: Option<MetaClientOptions>,
    pub wal: WalConfig,
    pub storage: ObjectStoreConfig,
    pub compaction: CompactionConfig,
    pub procedure: Option<ProcedureConfig>,
}

impl Default for DatanodeOptions {
    fn default() -> (options: DatanodeOptions)
        ensures
            options.mode == Mode::Standalone,
            !options.enable_memory_catalog,
            options.node_id is None,
            options.rpc_addr@ == "127.0.0.1:3001"@,
            options.rpc_hostname is None,
            options.rpc_runtime_size == 8,
            options.mysql_addr@ == "127.0.0.1:4406"@,
            options.mysql_runtime_size == 2,
            options.meta_client_options is None,
            options.wal.dir@ == "/tmp/greptimedb/wal"@,
            options.wal.file_size.0 == GIB,
            options.wal.purge_threshold.0 == 50 * GIB,
            options.wal.purge_interval == 600_000,
            options.wal.read_batch_size == 128,
            !options.wal.sync_write,
            options.storage.is_file_at("/tmp/greptimedb/data/"@),
            options.compaction == (CompactionConfig {
                max_inflight_tasks: 4,
                max_files_in_level0: 8,
                max_purge_tasks: 32,
            }),
            options.procedure is None,
    {
        DatanodeOptions {
            mode: Mode::Standalone,
            enable_memory_catalog: false,
            node_id: None,
            rpc_addr: String::from_str("127.0.0.1:3001"),
            rpc_hostname: None,
            rpc_runtime_size: 8,
            mysql_addr: String::from_str("127.0.0.1:4406"),
            mysql_runtime_size: 2,
            meta_client_options: None,
            wal: WalConfig::default(),
            storage: ObjectStoreConfig::default(),
            compaction: CompactionConfig::default(),
            procedure: None,
        }
    }
}

} // verus!
