//! A plain-value model of the catalog of record: the durable identifiers and
//! the two read operations that resolution relies on.

use vstd::prelude::*;

verus! {

/// Durable identifier of a topic, assigned by the catalog.
#[derive(Clone, Copy, Debug, PartialEq, Eq, Structural)]
pub struct TopicId(pub i64);

/// Durable identifier of a shard, assigned by the catalog.
#[derive(Clone, Copy, Debug, PartialEq, Eq, Structural)]
pub struct ShardId(pub i64);

/// Operator-supplied index of a shard, meaningful only under one topic.
#[derive(Clone, Copy, Debug, PartialEq, Eq, Structural)]
pub struct ShardIndex(pub i32);

/// What a successful topic lookup returns: the topic's durable identifier.
#[derive(Clone, Copy, Debug, PartialEq, Eq, Structural)]
pub struct TopicRecord {
    pub id: TopicId,
}

/// What a successful shard lookup returns: the shard's durable identifier.
#[derive(Clone, Copy, Debug, PartialEq, Eq, Structural)]
pub struct ShardRecord {
    pub id: ShardId,
}

/// One topic the catalog knows: its name and its identifier.
#[derive(Debug)]
pub struct TopicEntry {
    pub name: String,
    pub id: TopicId,
}

/// One shard the catalog knows: its topic, its index under that topic, and
/// its identifier.
#[derive(Debug)]
pub struct ShardEntry {
    pub topic_id: TopicId,
    pub shard_index: ShardIndex,
    pub id: ShardId,
}

/// The content of the catalog of record, as plain values. The remote service
/// itself is reached only by the surrounding process; resolution reasons over
/// this model of what the service holds.
#[derive(Debug)]
pub struct CatalogModel {
    pub topics: Vec<TopicEntry>,
    pub shards: Vec<ShardEntry>,
}

/// The record of the first topic named `name`, scanning from position `i`.
pub open spec fn topic_record_from(topics: Seq<TopicEntry>, name: Seq<char>, i: int) -> Option<
    TopicRecord,
>
    decreases topics.len() - i when 0 <= i
{
    if i >= topics.len() {
        None
    } else if topics[i].name@ == name {
        Some(TopicRecord { id: topics[i].id })
    } else {
        topic_record_from(topics, name, i + 1)
    }
}

/// The record of the first shard with the given topic and index, scanning
/// from position `i`.
pub open spec fn shard_record_from(
    shards: Seq<ShardEntry>,
    topic_id: TopicId,
    shard_index: ShardIndex,
    i: int,
) -> Option<ShardRecord>
    decreases shards.len() - i when 0 <= i
{
    if i >= shards.len() {
        None
    } else if shards[i].topic_id == topic_id && shards[i].shard_index == shard_index {
        Some(ShardRecord { id: shards[i].id })
    } else {
        shard_record_from(shards, topic_id, shard_index, i + 1)
    }
}

/// The answer a successful topic lookup carries: the first topic named `name`,
/// or nothing when no topic has that name.
pub open spec fn spec_topic_record(c: CatalogModel, name: Seq<char>) -> Option<TopicRecord> {
    topic_record_from(c.topics@, name, 0)
}

/// The answer a successful shard lookup carries.
pub open spec fn spec_shard_record(
    c: CatalogModel,
    topic_id: TopicId,
    shard_index: ShardIndex,
) -> Option<ShardRecord> {
    shard_record_from(c.shards@, topic_id, shard_index, 0)
}

impl CatalogModel {
    /// Map a topic name to the topic's record; "no such topic" is a normal
    /// answer, not a failure.
    pub fn lookup_topic_by_name(&self, name: &String) -> (r: Option<TopicRecord>)
        ensures
            r == spec_topic_record(*self, name@),
    {
        let mut i: usize = 0;
        while i < self.topics.len()
            invariant
                0 <= i <= self.topics.len(),
                topic_record_from(self.topics@, name@, 0) == topic_record_from(
                    self.topics@,
                    name@,
                    i as int,
                ),
            decreases self.topics.len() - i,
        {
            if self.topics[i].name == *name {
                return Some(TopicRecord { id: self.topics[i].id });
            }
            i += 1;
        }
        None
    }

    /// Map a topic identifier and a shard index to the shard's record;
    /// "no such shard" is a normal answer, not a failure.
    pub fn lookup_shard_by_topic_and_index(
        &self,
        topic_id: TopicId,
        shard_index: ShardIndex,
    ) -> (r: Option<ShardRecord>)
        ensures
            r == spec_shard_record(*self, topic_id, shard_index),
    {
        let mut i: usize = 0;
        while i < self.shards.len()
            invariant
                0 <= i <= self.shards.len(),
                shard_record_from(self.shards@, topic_id, shard_index, 0) == shard_record_from(
                    self.shards@,
                    topic_id,
                    shard_index,
                    i as int,
                ),
            decreases self.shards.len() - i,
        {
            if self.shards[i].topic_id == topic_id && self.shards[i].shard_index == shard_index {
                return Some(ShardRecord { id: self.shards[i].id });
            }
            i += 1;
        }
        None
    }
}

} // verus!
