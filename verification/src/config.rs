//! The resolved configuration bundle a worker process boots with: the shard
//! identifier that resolution produced, plus already-validated tuning
//! parameters. It is built once, after resolution succeeds, and never
//! mutated.

use vstd::prelude::*;
use crate::backoff::BackoffSchedule;
use crate::catalog::{CatalogModel, ShardId, ShardIndex};
use crate::resolver::{ResolveError, resolve, spec_resolution};

verus! {

/// Configuration of a compaction worker.
#[derive(Debug)]
pub struct Config {
    /// The shard this worker is responsible for, as resolution produced it.
    pub shard_id: ShardId,
    /// Number of partitions compacted in parallel; at least one.
    pub partition_concurrency: usize,
    /// Number of concurrent compaction jobs; at least one.
    pub job_concurrency: usize,
    /// Partitions with files created within this many minutes are selected.
    pub partition_minute_threshold: u64,
    /// Desired maximum size of a compacted file, in bytes.
    pub max_desired_file_size_bytes: u64,
    /// Percentage of the desired maximum size under which a result is too
    /// small to split; strictly between 0 and 100.
    pub percentage_max_file_size: u16,
    /// Percentage at which a mid-sized result is split in two; strictly
    /// between 0 and 100.
    pub split_percentage: u16,
    /// Maximum duration of one partition's compaction, in seconds.
    pub partition_timeout_secs: u64,
}

impl Config {
    /// The tuning parameters a well-formed configuration carries.
    pub open spec fn wf(self) -> bool {
        &&& self.partition_concurrency >= 1
        &&& self.job_concurrency >= 1
        &&& 0 < self.percentage_max_file_size < 100
        &&& 0 < self.split_percentage < 100
    }

    /// Bundle a resolved shard identifier with tuning parameters, refusing
    /// any combination that is not well formed: no partial configuration is
    /// ever handed out.
    pub fn new(
        shard_id: ShardId,
        partition_concurrency: usize,
        job_concurrency: usize,
        partition_minute_threshold: u64,
        max_desired_file_size_bytes: u64,
        percentage_max_file_size: u16,
        split_percentage: u16,
        partition_timeout_secs: u64,
    ) -> (r: Option<Config>)
        ensures
            r is Some <==> {
                &&& partition_concurrency >= 1
                &&& job_concurrency >= 1
                &&& 0 < percentage_max_file_size < 100
                &&& 0 < split_percentage < 100
            },
            r matches Some(c) ==> {
                &&& c.wf()
                &&& c == (Config {
                    shard_id,
                    partition_concurrency,
                    job_concurrency,
                    partition_minute_threshold,
                    max_desired_file_size_bytes,
                    percentage_max_file_size,
                    split_percentage,
                    partition_timeout_secs,
                })
            },
    {
        if partition_concurrency >= 1 && job_concurrency >= 1 && 0 < percentage_max_file_size
            && percentage_max_file_size < 100 && 0 < split_percentage && split_percentage < 100 {
            Some(
                Config {
                    shard_id,
                    partition_concurrency,
                    job_concurrency,
                    partition_minute_threshold,
                    max_desired_file_size_bytes,
                    percentage_max_file_size,
                    split_percentage,
                    partition_timeout_secs,
                },
            )
        } else {
            None
        }
    }

    /// Fetch the shard identifier this worker needs before it can be
    /// configured: resolve the operator-supplied topic name and shard index
    /// through both catalog phases, retrying transient failures on the given
    /// schedule. A missing topic or shard is a fatal misconfiguration,
    /// reported as the distinguished error the process entry point aborts
    /// on; `Unavailable` stands for a run whose availability pattern ended
    /// while the real loop would still be retrying.
    pub fn fetch_shard_id(
        catalog: &CatalogModel,
        backoff_config: &BackoffSchedule,
        topic_name: &String,
        shard_index: ShardIndex,
        availability: &Vec<bool>,
    ) -> (r: Result<ShardId, ResolveError>)
        ensures
            ({
                let av = availability@;
                let k = crate::retry::first_available_from(av, 0);
                let topic = crate::catalog::spec_topic_record(*catalog, topic_name@);
                &&& r matches Ok(sid) ==> spec_resolution(*catalog, topic_name@, shard_index)
                    == Some(sid)
                &&& k >= av.len() ==> {
                    &&& r matches Err(e)
                    &&& e matches ResolveError::Unavailable
                }
                &&& k < av.len() && topic is None ==> {
                    &&& r matches Err(e)
                    &&& e matches ResolveError::MissingTopic { topic_name: tn }
                    &&& tn@ == topic_name@
                }
                &&& k < av.len() ==> (topic matches Some(t) ==> {
                    let m = crate::retry::first_available_from(av, k + 1);
                    let shard = crate::catalog::spec_shard_record(*catalog, t.id, shard_index);
                    &&& m >= av.len() ==> {
                        &&& r matches Err(e)
                        &&& e matches ResolveError::Unavailable
                    }
                    &&& m < av.len() && shard is None ==> {
                        &&& r matches Err(e)
                        &&& e matches ResolveError::MissingShard {
                            topic_name: tn,
                            shard_index: si,
                        }
                        &&& tn@ == topic_name@
                        &&& si == shard_index
                    }
                    &&& m < av.len() ==> (shard matches Some(s) ==> r matches Ok(sid) && sid
                        == s.id)
                })
            }),
    {
        let run = resolve(catalog, backoff_config, topic_name, shard_index, availability);
        match run.outcome {
            Ok(resolution) => Ok(resolution.shard_id),
            Err(e) => Err(e),
        }
    }
}

} // verus!
