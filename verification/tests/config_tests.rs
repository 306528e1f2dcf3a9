use iox_resolver::backoff::BackoffSchedule;
use iox_resolver::catalog::{
    CatalogModel, ShardEntry, ShardId, ShardIndex, TopicEntry, TopicId,
};
use iox_resolver::config::Config;
use iox_resolver::resolver::ResolveError;

fn sensors_catalog() -> CatalogModel {
    CatalogModel {
        topics: vec![TopicEntry { name: "sensors".to_string(), id: TopicId(7) }],
        shards: vec![ShardEntry {
            topic_id: TopicId(7),
            shard_index: ShardIndex(2),
            id: ShardId(42),
        }],
    }
}

fn schedule() -> BackoffSchedule {
    BackoffSchedule { init_delay_ms: 100, max_delay_ms: 30_000, multiplier: 2 }
}

#[test]
fn fetch_shard_id_resolves_through_both_phases() {
    let catalog = sensors_catalog();
    let r = Config::fetch_shard_id(
        &catalog,
        &schedule(),
        &"sensors".to_string(),
        ShardIndex(2),
        &vec![false, true, true],
    );
    assert_eq!(r.unwrap(), ShardId(42));
}

#[test]
fn fetch_shard_id_reports_missing_topic() {
    let catalog = sensors_catalog();
    let r = Config::fetch_shard_id(
        &catalog,
        &schedule(),
        &"ghost".to_string(),
        ShardIndex(0),
        &vec![true, true],
    );
    assert!(matches!(
        r,
        Err(ResolveError::MissingTopic { topic_name }) if topic_name == "ghost"
    ));
}

#[test]
fn fetch_shard_id_reports_missing_shard() {
    let catalog = sensors_catalog();
    let r = Config::fetch_shard_id(
        &catalog,
        &schedule(),
        &"sensors".to_string(),
        ShardIndex(99),
        &vec![true, true],
    );
    assert!(matches!(
        r,
        Err(ResolveError::MissingShard { topic_name, shard_index })
            if topic_name == "sensors" && shard_index == ShardIndex(99)
    ));
}

#[test]
fn fetch_shard_id_reports_unavailability() {
    let catalog = sensors_catalog();
    let r = Config::fetch_shard_id(
        &catalog,
        &schedule(),
        &"sensors".to_string(),
        ShardIndex(2),
        &vec![false, false],
    );
    assert!(matches!(r, Err(ResolveError::Unavailable)));
}

#[test]
fn config_accepts_validated_parameters() {
    let c = Config::new(ShardId(42), 4, 2, 10, 1_048_576, 30, 80, 1_800).unwrap();
    assert_eq!(c.shard_id, ShardId(42));
    assert_eq!(c.partition_concurrency, 4);
    assert_eq!(c.job_concurrency, 2);
    assert_eq!(c.partition_minute_threshold, 10);
    assert_eq!(c.max_desired_file_size_bytes, 1_048_576);
    assert_eq!(c.percentage_max_file_size, 30);
    assert_eq!(c.split_percentage, 80);
    assert_eq!(c.partition_timeout_secs, 1_800);
}

#[test]
fn config_refuses_out_of_range_parameters() {
    assert!(Config::new(ShardId(1), 0, 2, 10, 1, 30, 80, 1).is_none());
    assert!(Config::new(ShardId(1), 4, 0, 10, 1, 30, 80, 1).is_none());
    assert!(Config::new(ShardId(1), 4, 2, 10, 1, 0, 80, 1).is_none());
    assert!(Config::new(ShardId(1), 4, 2, 10, 1, 100, 80, 1).is_none());
    assert!(Config::new(ShardId(1), 4, 2, 10, 1, 30, 0, 1).is_none());
    assert!(Config::new(ShardId(1), 4, 2, 10, 1, 30, 100, 1).is_none());
}
