use opensrdk_optimization::History;

#[test]
fn history_starts_empty() {
    let history: History<u32> = History::new(3);
    assert_eq!(history.len(), 0);
    assert!(history.is_empty());
    assert_eq!(history.capacity(), 3);
    assert_eq!(history.get(0), None);
    assert_eq!(history.newest(), None);
}

#[test]
fn history_keeps_insertion_order_below_its_limit() {
    let mut history = History::new(3);
    history.push(10);
    history.push(20);
    assert_eq!(history.len(), 2);
    assert!(!history.is_empty());
    assert_eq!(history.get(0), Some(&10));
    assert_eq!(history.get(1), Some(&20));
    assert_eq!(history.get(2), None);
    assert_eq!(history.newest(), Some(&20));
}

#[test]
fn history_evicts_the_oldest_pair_first() {
    let limit = 4;
    let mut history = History::new(limit);
    for item in 0..=limit {
        history.push(item);
        assert!(history.len() <= limit);
    }
    assert_eq!(history.len(), limit);
    for index in 0..limit {
        assert_eq!(history.get(index), Some(&(index + 1)));
    }
    assert_eq!(history.newest(), Some(&limit));
}

#[test]
fn history_wraps_around_many_times() {
    let mut history = History::new(3);
    for item in 0..100u64 {
        history.push(item);
        let len = history.len();
        assert_eq!(len, std::cmp::min(item as usize + 1, 3));
        for index in 0..len {
            assert_eq!(history.get(index), Some(&(item + 1 - len as u64 + index as u64)));
        }
        assert_eq!(history.newest(), Some(&item));
    }
}

#[test]
fn history_without_room_stays_empty() {
    let mut history = History::new(0);
    history.push(1);
    history.push(2);
    assert_eq!(history.len(), 0);
    assert_eq!(history.newest(), None);
}

#[test]
fn history_of_one_keeps_the_newest() {
    let mut history = History::new(1);
    history.push("a");
    history.push("b");
    assert_eq!(history.len(), 1);
    assert_eq!(history.get(0), Some(&"b"));
}
