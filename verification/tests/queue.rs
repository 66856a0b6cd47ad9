use hadal::queue::{shuffle_with_draws, PlayQueue, QueueItem};
use hadal::playlist::PlaylistError;
use hadal::types::RepeatMode;

fn make_item(id: i64) -> QueueItem {
    QueueItem::new(id, format!("Track {}", id), None, 180000, format!("/path/{}.flac", id))
}

#[test]
fn test_queue_basic() {
    let mut queue = PlayQueue::new();
    assert!(queue.is_empty());

    queue.push_back(make_item(1));
    queue.push_back(make_item(2));
    queue.push_back(make_item(3));

    assert_eq!(queue.len(), 3);
    assert_eq!(queue.current().unwrap().track_id, 1);

    queue.next();
    assert_eq!(queue.current().unwrap().track_id, 2);

    queue.next();
    assert_eq!(queue.current().unwrap().track_id, 3);
}

#[test]
fn test_queue_repeat() {
    let mut queue = PlayQueue::new();
    queue.push_back(make_item(1));
    queue.push_back(make_item(2));

    queue.set_repeat(RepeatMode::All);

    queue.next();
    assert_eq!(queue.current().unwrap().track_id, 2);

    queue.next();
    assert_eq!(queue.current().unwrap().track_id, 1);
}

fn ids(q: &PlayQueue) -> Vec<i64> {
    q.items().iter().map(|i| i.track_id).collect()
}

#[test]
fn next_stops_at_end_and_previous_goes_back() {
    let mut q = PlayQueue::new();
    q.extend(vec![make_item(1), make_item(2)]);
    assert_eq!(q.next().map(|i| i.track_id), Some(2));
    assert!(q.next().is_none());
    assert_eq!(q.position(), 1);
    assert_eq!(q.previous().map(|i| i.track_id), Some(2));
    assert_eq!(q.previous().map(|i| i.track_id), Some(1));
    assert_eq!(q.previous().map(|i| i.track_id), Some(1));
}

#[test]
fn repeat_one_stays() {
    let mut q = PlayQueue::new();
    q.extend(vec![make_item(1), make_item(2)]);
    q.set_repeat(RepeatMode::One);
    assert_eq!(q.next().map(|i| i.track_id), Some(1));
    q.cycle_repeat();
    assert_eq!(q.repeat(), RepeatMode::Off);
}

#[test]
fn jump_then_previous_returns() {
    let mut q = PlayQueue::new();
    q.extend(vec![make_item(1), make_item(2), make_item(3)]);
    assert_eq!(q.jump_to(2).map(|i| i.track_id).ok(), Some(3));
    assert!(matches!(q.jump_to(3), Err(PlaylistError::InvalidIndex(3))));
    assert_eq!(q.previous().map(|i| i.track_id), Some(1));
}

#[test]
fn push_next_and_remove() {
    let mut q = PlayQueue::new();
    q.push_next(make_item(1));
    q.push_back(make_item(3));
    q.push_next(make_item(2));
    assert_eq!(ids(&q), vec![1, 2, 3]);
    q.jump_to(2).unwrap();
    let removed = q.remove(0).unwrap();
    assert_eq!(removed.track_id, 1);
    assert_eq!(q.position(), 1);
    assert_eq!(q.current().unwrap().track_id, 3);
    assert!(matches!(q.remove(5), Err(PlaylistError::InvalidIndex(5))));
}

#[test]
fn durations() {
    let mut q = PlayQueue::new();
    q.extend(vec![make_item(1), make_item(2), make_item(3)]);
    assert_eq!(q.total_duration_ms(), 540000);
    q.next();
    assert_eq!(q.remaining_duration_ms(), 360000);
}

#[test]
fn shuffle_keeps_items_and_unshuffle_restores() {
    let mut q = PlayQueue::new();
    q.extend((1..=20).map(make_item).collect());
    q.jump_to(4).unwrap();
    q.set_shuffle(true);
    assert!(q.shuffle());
    assert_eq!(q.position(), 0);
    assert_eq!(q.current().unwrap().track_id, 5);
    let mut sorted = ids(&q);
    sorted.sort();
    assert_eq!(sorted, (1..=20).collect::<Vec<i64>>());
    q.toggle_shuffle();
    assert!(!q.shuffle());
    assert_eq!(ids(&q), (1..=20).collect::<Vec<i64>>());
    assert_eq!(q.current().unwrap().track_id, 5);
}

#[test]
fn move_item_follows_current() {
    let mut q = PlayQueue::new();
    q.extend(vec![make_item(1), make_item(2), make_item(3), make_item(4)]);
    q.jump_to(1).unwrap();
    q.move_item(1, 3).unwrap();
    assert_eq!(ids(&q), vec![1, 3, 4, 2]);
    assert_eq!(q.position(), 3);
    q.move_item(0, 3).unwrap();
    assert_eq!(ids(&q), vec![3, 4, 2, 1]);
    assert_eq!(q.position(), 2);
    assert!(q.move_item(0, 9).is_err());
    q.clear();
    assert!(q.is_empty());
    assert_eq!(q.position(), 0);
}

fn deque_ids(items: &std::collections::VecDeque<QueueItem>) -> Vec<i64> {
    items.iter().map(|i| i.track_id).collect()
}

#[test]
fn shuffle_follows_the_draws() {
    let mut items: std::collections::VecDeque<QueueItem> = (1..=5).map(make_item).collect();
    shuffle_with_draws(&mut items, &vec![0, 0, 0]);
    assert_eq!(deque_ids(&items), vec![1, 3, 4, 5, 2]);
    let mut same: std::collections::VecDeque<QueueItem> = (1..=5).map(make_item).collect();
    shuffle_with_draws(&mut same, &vec![3, 2, 1]);
    assert_eq!(deque_ids(&same), vec![1, 2, 3, 4, 5]);
    let mut two: std::collections::VecDeque<QueueItem> = (1..=2).map(make_item).collect();
    shuffle_with_draws(&mut two, &Vec::new());
    assert_eq!(deque_ids(&two), vec![1, 2]);
}
