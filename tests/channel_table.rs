use tune_in::table::{Channel, ChannelTable, CAPACITY};

fn freqs(t: &ChannelTable) -> Vec<(u32, u8)> {
    t.channels().iter().map(|c| (c.freq, c.strength)).collect()
}

#[test]
fn capacity_holds_ten_channels() {
    let mut t = ChannelTable::new();
    for i in 0..10u32 {
        assert!(t.add(100_000 + i * 1_000, 100));
    }
    assert_eq!(t.len(), CAPACITY);
    assert!(!t.add(900_000, 100));
    assert_eq!(t.len(), 10);
    assert!(!t.contains_frequency(900_000));
}

#[test]
fn adding_same_pair_twice_keeps_one() {
    let mut t = ChannelTable::new();
    assert!(t.add(440_000, 100));
    assert!(!t.add(440_000, 100));
    assert_eq!(freqs(&t), vec![(440_000, 100)]);
}

#[test]
fn frequency_is_the_key() {
    let mut t = ChannelTable::new();
    assert!(t.add(440_000, 100));
    assert!(!t.add(440_000, 50));
    assert_eq!(freqs(&t), vec![(440_000, 100)]);
    assert!(t.contains(440_000, 100));
    assert!(!t.contains(440_000, 50));
    assert!(t.contains_frequency(440_000));
}

#[test]
fn remove_returns_channel_and_keeps_order() {
    let mut t = ChannelTable::new();
    t.add(1_000, 1);
    t.add(2_000, 2);
    t.add(3_000, 3);
    assert_eq!(t.position(2_000), Some(1));
    assert_eq!(t.remove(2_000), Some(Channel { freq: 2_000, strength: 2 }));
    assert_eq!(freqs(&t), vec![(1_000, 1), (3_000, 3)]);
    assert_eq!(t.remove(2_000), None);
    assert_eq!(t.position(2_000), None);
    assert_eq!(freqs(&t), vec![(1_000, 1), (3_000, 3)]);
}

#[test]
fn toggle_twice_restores_table() {
    let mut t = ChannelTable::new();
    t.add(1_000, 1);
    t.add(2_000, 2);
    let before = freqs(&t);
    t.toggle(5_000, 9);
    assert_eq!(freqs(&t), vec![(1_000, 1), (2_000, 2), (5_000, 9)]);
    t.toggle(5_000, 9);
    assert_eq!(freqs(&t), before);
}

#[test]
fn toggle_twice_of_active_channel_moves_it_last() {
    let mut t = ChannelTable::new();
    t.add(1_000, 1);
    t.add(2_000, 2);
    t.toggle(1_000, 1);
    assert_eq!(freqs(&t), vec![(2_000, 2)]);
    t.toggle(1_000, 1);
    assert_eq!(freqs(&t), vec![(2_000, 2), (1_000, 1)]);
}

#[test]
fn toggle_on_full_table_changes_nothing() {
    let mut t = ChannelTable::new();
    for i in 0..10u32 {
        t.add(i + 1, 0);
    }
    t.toggle(500, 1);
    assert_eq!(t.len(), 10);
    assert!(!t.contains_frequency(500));
}

#[test]
fn empty_table() {
    let t = ChannelTable::new();
    assert!(t.is_empty());
    assert_eq!(t.len(), 0);
    assert!(t.accepts(0));
}
