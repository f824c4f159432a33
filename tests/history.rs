use key_overlay::display::{DisplayQueue, DEFAULT_CAPACITY};
use key_overlay::event::{DecodeError, EV_KEY};

fn record(typ: u16, code: u16, value: i32) -> Vec<u8> {
    let mut b = vec![0u8; 16];
    b.extend_from_slice(&typ.to_le_bytes());
    b.extend_from_slice(&code.to_le_bytes());
    b.extend_from_slice(&value.to_le_bytes());
    b
}

#[test]
fn new_queue_is_empty() {
    let q = DisplayQueue::new(DEFAULT_CAPACITY);
    assert_eq!(q.len(), 0);
    assert_eq!(q.capacity(), 20);
    assert!(q.codes().is_empty());
}

#[test]
fn push_keeps_insertion_order() {
    let mut q = DisplayQueue::new(5);
    q.push(3);
    q.push(1);
    q.push(2);
    assert_eq!(q.codes(), vec![3, 1, 2]);
}

#[test]
fn capacity_plus_one_evicts_the_oldest() {
    let mut q = DisplayQueue::new(DEFAULT_CAPACITY);
    for c in 1..=21u16 {
        q.push(c);
        assert!(q.len() <= DEFAULT_CAPACITY);
    }
    assert_eq!(q.len(), 20);
    assert_eq!(q.codes(), (2..=21u16).collect::<Vec<u16>>());
}

#[test]
fn equal_codes_are_kept_separately() {
    let mut q = DisplayQueue::new(2);
    q.push(30);
    q.push(30);
    q.push(30);
    assert_eq!(q.codes(), vec![30, 30]);
}

#[test]
fn zero_capacity_holds_nothing() {
    let mut q = DisplayQueue::new(0);
    q.push(30);
    assert_eq!(q.len(), 0);
}

#[test]
fn labels_follow_the_codes() {
    let mut q = DisplayQueue::new(3);
    q.push(30);
    q.push(999);
    q.push(103);
    assert_eq!(q.labels(), vec!["A", "<UNK>", "UP"]);
}

#[test]
fn press_release_repeat_shows_two_keys() {
    let mut q = DisplayQueue::new(DEFAULT_CAPACITY);
    assert_eq!(q.feed_record(&record(EV_KEY, 30, 1)), Ok(true));
    assert_eq!(q.feed_record(&record(EV_KEY, 30, 0)), Ok(false));
    assert_eq!(q.feed_record(&record(EV_KEY, 16, 2)), Ok(true));
    assert_eq!(q.labels(), vec!["A", "Q"]);
}

#[test]
fn short_record_leaves_history_unchanged() {
    let mut q = DisplayQueue::new(4);
    q.push(17);
    let r = record(EV_KEY, 30, 1);
    assert_eq!(q.feed_record(&r[..23]), Err(DecodeError::ShortRecord));
    assert_eq!(q.codes(), vec![17]);
}

#[test]
fn non_key_events_are_discarded() {
    let mut q = DisplayQueue::new(4);
    assert_eq!(q.feed_record(&record(0, 0, 0)), Ok(false));
    assert_eq!(q.feed_record(&record(EV_KEY, 0, 1)), Ok(false));
    assert_eq!(q.feed_record(&record(2, 30, 1)), Ok(false));
    assert_eq!(q.len(), 0);
}
