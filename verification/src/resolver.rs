//! The identifier resolver: map a topic name to a topic identifier, then the
//! pair (topic identifier, shard index) to a shard identifier, retrying each
//! catalog call while the service is transiently unreachable, and turning
//! "the call succeeded but found nothing" into a fatal configuration error.

use vstd::prelude::*;
use crate::backoff::BackoffSchedule;
use crate::catalog::{CatalogModel, ShardId, ShardIndex, TopicId, spec_shard_record,
    spec_topic_record};
use crate::retry::{first_available_from, invoke_with_retry};

verus! {

/// The two conditions under which resolution gives up, and the one under
/// which it is still waiting. A missing record is an operator
/// misconfiguration that retrying cannot fix: the caller must stop the
/// process, not continue with a placeholder identifier.
#[derive(Debug)]
pub enum ResolveError {
    /// The catalog answered and holds no topic of this name.
    MissingTopic { topic_name: String },
    /// The topic exists, but the catalog holds no shard of this index under
    /// it.
    MissingShard { topic_name: String, shard_index: ShardIndex },
    /// Every attempt the availability pattern covers failed in transport; the
    /// real loop would still be retrying.
    Unavailable,
}

/// One catalog call as resolution performed it, in order.
#[derive(Debug)]
pub enum CatalogCall {
    /// A lookup of a topic by name.
    Topic { name: String },
    /// A lookup of a shard by topic identifier and shard index.
    Shard { topic_id: TopicId, shard_index: ShardIndex },
}

/// A successful resolution: the shard identifier, and the delays slept while
/// each of the two phases retried.
#[derive(Debug)]
pub struct Resolution {
    pub shard_id: ShardId,
    /// Delay slept after each failed attempt of the topic lookup.
    pub phase_one_delays: Vec<u64>,
    /// Delay slept after each failed attempt of the shard lookup.
    pub phase_two_delays: Vec<u64>,
}

/// A resolution run: its outcome, and the catalog calls it made.
#[derive(Debug)]
pub struct ResolveRun {
    pub outcome: Result<Resolution, ResolveError>,
    pub calls: Vec<CatalogCall>,
}

/// The shard identifier that an unchanged catalog resolves (name, index) to,
/// whatever pattern of transient failures the run sees on the way.
pub open spec fn spec_resolution(c: CatalogModel, name: Seq<char>, shard_index: ShardIndex) -> Option<
    ShardId,
> {
    match spec_topic_record(c, name) {
        Option::None => Option::None,
        Option::Some(topic) => match spec_shard_record(c, topic.id, shard_index) {
            Option::None => Option::None,
            Option::Some(shard) => Option::Some(shard.id),
        },
    }
}

/// Resolve a topic name and a shard index to a shard identifier against the
/// catalog: look the topic up by name until the call gets through, stop with
/// `MissingTopic` if the answer carries no record, then — and only with the
/// topic identifier that first phase returned — look the shard up until that
/// call gets through, and stop with `MissingShard` if its answer carries no
/// record. Both phases share the schedule but retry independently; a failure
/// in the second never restarts the first.
pub fn resolve(
    catalog: &CatalogModel,
    schedule: &BackoffSchedule,
    topic_name: &String,
    shard_index: ShardIndex,
    availability: &Vec<bool>,
) -> (r: ResolveRun)
    ensures
        ({
            let av = availability@;
            let k = first_available_from(av, 0);
            let topic = spec_topic_record(*catalog, topic_name@);
            // Every topic call asks for exactly the given name; every shard
            // call carries the topic identifier that phase one returned and
            // the given index, never any other.
            &&& forall|i: int|
                0 <= i < r.calls@.len() ==> match #[trigger] r.calls@[i] {
                    CatalogCall::Topic { name } => name@ == topic_name@,
                    CatalogCall::Shard { topic_id, shard_index: si } => topic == Some(
                        crate::catalog::TopicRecord { id: topic_id },
                    ) && si == shard_index,
                }
            &&& k >= av.len() ==> {
                &&& r.outcome matches Err(e)
                &&& e matches ResolveError::Unavailable
                &&& r.calls@.len() == av.len()
                &&& forall|i: int|
                    0 <= i < r.calls@.len() ==> #[trigger] r.calls@[i] matches CatalogCall::Topic {
                        ..
                    }
            }
            &&& k < av.len() && topic is None ==> {
                &&& r.outcome matches Err(e)
                &&& e matches ResolveError::MissingTopic { topic_name: tn }
                &&& tn@ == topic_name@
                &&& r.calls@.len() == k + 1
                &&& forall|i: int|
                    0 <= i < r.calls@.len() ==> #[trigger] r.calls@[i] matches CatalogCall::Topic {
                        ..
                    }
            }
            &&& k < av.len() ==> (topic matches Some(t) ==> {
                let m = first_available_from(av, k + 1);
                let shard = spec_shard_record(*catalog, t.id, shard_index);
                &&& m >= av.len() ==> {
                    &&& r.outcome matches Err(e)
                    &&& e matches ResolveError::Unavailable
                    &&& r.calls@.len() == av.len()
                }
                &&& m < av.len() && shard is None ==> {
                    &&& r.outcome matches Err(e)
                    &&& e matches ResolveError::MissingShard { topic_name: tn, shard_index: si }
                    &&& tn@ == topic_name@
                    &&& si == shard_index
                    &&& r.calls@.len() == m + 1
                }
                &&& m < av.len() ==> (shard matches Some(s) ==> {
                    &&& r.outcome matches Ok(res)
                    &&& res.shard_id == s.id
                    &&& res.phase_one_delays@.len() == k
                    &&& res.phase_two_delays@.len() == m - (k + 1)
                    &&& (forall|i: int|
                        0 <= i < k ==> (#[trigger] res.phase_one_delays@[i]) == schedule.delay_at(
                            i as nat,
                        ))
                    &&& (forall|i: int|
                        0 <= i < m - (k + 1) ==> (#[trigger] res.phase_two_delays@[i])
                            == schedule.delay_at(i as nat))
                    &&& r.calls@.len() == m + 1
                })
            })
            // A successful outcome is always the value the catalog's content
            // determines, independent of the availability pattern.
            &&& r.outcome matches Ok(res) ==> spec_resolution(*catalog, topic_name@, shard_index)
                == Some(res.shard_id)
        }),
{
    let mut calls: Vec<CatalogCall> = Vec::new();

    // Phase one: ask for the topic by name until the call gets through.
    let run1 = invoke_with_retry(schedule, availability, 0);
    let mut a: usize = 0;
    while a < run1.next_pos
        invariant
            a <= run1.next_pos,
            calls@.len() == a,
            forall|i: int|
                0 <= i < calls@.len() ==> match #[trigger] calls@[i] {
                    CatalogCall::Topic { name } => name@ == topic_name@,
                    CatalogCall::Shard { .. } => false,
                },
        decreases run1.next_pos - a,
    {
        calls.push(CatalogCall::Topic { name: topic_name.clone() });
        a += 1;
    }
    if !run1.succeeded {
        return ResolveRun { outcome: Err(ResolveError::Unavailable), calls };
    }

    // The call got through: an empty answer is a fatal misconfiguration, not
    // something retrying can fix.
    let topic = match catalog.lookup_topic_by_name(topic_name) {
        None => {
            return ResolveRun {
                outcome: Err(ResolveError::MissingTopic { topic_name: topic_name.clone() }),
                calls,
            };
        },
        Some(topic) => topic,
    };

    // Phase two: ask for the shard under the topic identifier that phase one
    // returned, retrying from where the pattern left off.
    let run2 = invoke_with_retry(schedule, availability, run1.next_pos);
    let mut b: usize = run1.next_pos;
    while b < run2.next_pos
        invariant
            run1.next_pos <= b <= run2.next_pos,
            calls@.len() == b,
            forall|i: int|
                0 <= i < calls@.len() ==> match #[trigger] calls@[i] {
                    CatalogCall::Topic { name } => name@ == topic_name@ && i < run1.next_pos,
                    CatalogCall::Shard { topic_id, shard_index: si } => topic_id == topic.id && si
                        == shard_index && run1.next_pos <= i,
                },
        decreases run2.next_pos - b,
    {
        calls.push(CatalogCall::Shard { topic_id: topic.id, shard_index });
        b += 1;
    }
    if !run2.succeeded {
        return ResolveRun { outcome: Err(ResolveError::Unavailable), calls };
    }

    match catalog.lookup_shard_by_topic_and_index(topic.id, shard_index) {
        None => ResolveRun {
            outcome: Err(
                ResolveError::MissingShard { topic_name: topic_name.clone(), shard_index },
            ),
            calls,
        },
        Some(shard) => ResolveRun {
            outcome: Ok(
                Resolution {
                    shard_id: shard.id,
                    phase_one_delays: run1.delays,
                    phase_two_delays: run2.delays,
                },
            ),
            calls,
        },
    }
}

/// Resolution is idempotent: against an unchanged catalog, the shard
/// identifier that (name, index) resolves to is the same in any two runs,
/// because a successful outcome is a function of the catalog's content alone.
pub proof fn lemma_resolution_idempotent(
    c: CatalogModel,
    name: Seq<char>,
    shard_index: ShardIndex,
    r1: Option<ShardId>,
    r2: Option<ShardId>,
)
    requires
        r1 == spec_resolution(c, name, shard_index),
        r2 == spec_resolution(c, name, shard_index),
    ensures
        r1 == r2,
{
}

} // verus!
