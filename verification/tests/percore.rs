use unikernel_core::percore::{print_statistics, CoreRegistry, CoreStatistics, StatisticsLine};

#[test]
fn new_statistics_count_nothing() {
    let statistics = CoreStatistics::new(4);
    assert_eq!(statistics.core_id, 4);
    assert_eq!(statistics.counters, vec![0u64; 256]);
}

#[test]
fn registry_hands_out_what_a_core_published() {
    let mut registry = CoreRegistry::new();
    let mut two = CoreStatistics::new(2);
    two.inc(32);
    let mut zero = CoreStatistics::new(0);
    zero.inc(255);
    zero.inc(255);
    registry.register(two);
    registry.register(zero);
    assert_eq!(registry.len(), 2);
    assert_eq!(registry.lookup(0).unwrap()[255], 2);
    assert_eq!(registry.lookup(2).unwrap()[32], 1);
    assert!(registry.lookup(1).is_none());
}

#[test]
fn publishing_again_replaces_the_counts() {
    let mut registry = CoreRegistry::new();
    let mut first = CoreStatistics::new(1);
    first.inc(3);
    registry.register(first);
    let mut second = CoreStatistics::new(1);
    second.inc(4);
    second.inc(4);
    registry.register(second);
    assert_eq!(registry.len(), 1);
    assert_eq!(registry.lookup(1).unwrap()[3], 0);
    assert_eq!(registry.lookup(1).unwrap()[4], 2);
}

#[test]
fn statistics_list_cores_and_vectors_in_order() {
    let mut registry = CoreRegistry::new();
    let mut three = CoreStatistics::new(3);
    three.inc(33);
    let mut one = CoreStatistics::new(1);
    one.inc(200);
    one.inc(7);
    one.inc(7);
    let idle = CoreStatistics::new(2);
    registry.register(three);
    registry.register(one);
    registry.register(idle);
    assert_eq!(
        print_statistics(&registry),
        vec![
            StatisticsLine { core_id: 1, irq: 7, count: 2 },
            StatisticsLine { core_id: 1, irq: 200, count: 1 },
            StatisticsLine { core_id: 3, irq: 33, count: 1 },
        ]
    );
}

#[test]
fn statistics_of_an_empty_registry_are_empty() {
    assert_eq!(print_statistics(&CoreRegistry::new()), vec![]);
}
