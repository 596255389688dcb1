use tune_in::dds::DdsData;
use tune_in::protocol::{Message, Pending, NOTE_OFF, NOTE_ON};
use tune_in::table::Channel;

/// A serial port that records what it is sent, and fails a write when told to.
struct FakePort {
    sent: Vec<[u8; 3]>,
    fail_next: bool,
}

impl FakePort {
    fn new() -> Self {
        FakePort { sent: Vec::new(), fail_next: false }
    }

    fn write(&mut self, m: &Message) -> bool {
        if self.fail_next {
            self.fail_next = false;
            return false;
        }
        self.sent.push(m.to_bytes());
        true
    }
}

/// Sends the message of a request, if any, and settles the change.
fn run(dds: &mut DdsData, port: &mut FakePort, m: Option<Message>) -> bool {
    match m {
        Some(m) => {
            let ok = port.write(&m);
            dds.finish(ok)
        }
        None => dds.finish(false),
    }
}

fn clear_all(dds: &mut DdsData, port: &mut FakePort) {
    while let Some(m) = dds.clear_next() {
        let ok = port.write(&m);
        dds.finish(ok);
        if !ok {
            break;
        }
    }
}

fn table(dds: &DdsData) -> Vec<(u32, u8)> {
    dds.channels().iter().map(|c| (c.freq, c.strength)).collect()
}

#[test]
fn activate_toggle_and_clear_scenario() {
    let mut dds = DdsData::new();
    let mut port = FakePort::new();
    let m = dds.add_signal(261_630, 185);
    assert!(run(&mut dds, &mut port, m));
    assert_eq!(table(&dds), vec![(261_630, 185)]);
    assert_eq!(port.sent, vec![[0x90, 60, 185]]);

    let m = dds.toggle_signal(261_630, 185);
    assert!(run(&mut dds, &mut port, m));
    assert!(table(&dds).is_empty());
    assert_eq!(port.sent, vec![[0x90, 60, 185], [0x80, 60, 0x00]]);

    port.sent.clear();
    for f in [261_630, 293_660, 329_630] {
        let m = dds.toggle_signal(f, 100);
        assert!(run(&mut dds, &mut port, m));
    }
    assert_eq!(table(&dds).len(), 3);
    port.sent.clear();
    clear_all(&mut dds, &mut port);
    assert!(table(&dds).is_empty());
    assert_eq!(port.sent.len(), 3);
    assert!(port.sent.iter().all(|b| b[0] == NOTE_OFF && b[2] == 0));
    assert_eq!(port.sent[0][1], 60);
    assert_eq!(port.sent[1][1], 62);
    assert_eq!(port.sent[2][1], 64);
}

#[test]
fn off_message_payload_is_zero() {
    let mut dds = DdsData::new();
    let mut port = FakePort::new();
    let m = dds.add_signal(440_000, 255);
    run(&mut dds, &mut port, m);
    let m = dds.remove_signal(440_000);
    assert_eq!(m, Some(Message { status: NOTE_OFF, note: 69, payload: 0 }));
    assert!(run(&mut dds, &mut port, m));
    assert_eq!(port.sent[1], [0x80, 69, 0]);
}

#[test]
fn failed_send_leaves_table_unchanged() {
    let mut dds = DdsData::new();
    let mut port = FakePort::new();
    port.fail_next = true;
    let m = dds.add_signal(440_000, 10);
    assert!(m.is_some());
    assert!(!run(&mut dds, &mut port, m));
    assert!(table(&dds).is_empty());
    assert!(dds.pending().is_none());

    let m = dds.add_signal(440_000, 10);
    assert!(run(&mut dds, &mut port, m));
    port.fail_next = true;
    let m = dds.remove_signal(440_000);
    assert!(!run(&mut dds, &mut port, m));
    assert_eq!(table(&dds), vec![(440_000, 10)]);
}

#[test]
fn request_leaves_table_until_finished() {
    let mut dds = DdsData::new();
    let m = dds.add_signal(440_000, 10);
    assert_eq!(m, Some(Message { status: NOTE_ON, note: 69, payload: 10 }));
    assert_eq!(dds.pending(), Some(Pending::On(Channel { freq: 440_000, strength: 10 })));
    assert!(table(&dds).is_empty());
    assert!(dds.finish(true));
    assert_eq!(table(&dds), vec![(440_000, 10)]);
    assert!(!dds.finish(true));
}

#[test]
fn no_message_when_table_refuses() {
    let mut dds = DdsData::new();
    let mut port = FakePort::new();
    for i in 0..10u32 {
        let m = dds.add_signal(100_000 + i * 10_000, 1);
        run(&mut dds, &mut port, m);
    }
    assert_eq!(port.sent.len(), 10);
    assert_eq!(dds.add_signal(900_000, 1), None);
    assert_eq!(dds.add_signal(100_000, 1), None);
    assert_eq!(dds.remove_signal(5), None);
    assert_eq!(dds.clear_next().map(|m| m.status), Some(NOTE_OFF));
}

#[test]
fn random_strength_still_adds_the_tone() {
    let mut dds = DdsData::new();
    let mut port = FakePort::new();
    dds.toggle_rand();
    assert!(dds.is_random());
    let m = dds.toggle_signal(440_000, 7).unwrap();
    assert_eq!(m.status, NOTE_ON);
    assert!(run(&mut dds, &mut port, Some(m)));
    assert_eq!(table(&dds), vec![(440_000, m.payload)]);
    let m = dds.toggle_signal(440_000, 7);
    assert_eq!(m, Some(Message { status: NOTE_OFF, note: 69, payload: 0 }));
    assert!(run(&mut dds, &mut port, m));
    assert!(table(&dds).is_empty());
    dds.toggle_rand();
    assert!(!dds.is_random());
}

#[test]
fn begin_add_uses_given_strength() {
    let mut dds = DdsData::new();
    dds.toggle_rand();
    let m = dds.begin_add(220_000, 33);
    assert_eq!(m, Some(Message { status: NOTE_ON, note: 57, payload: 33 }));
}

#[test]
fn message_bytes() {
    let m = Message { status: 0x90, note: 60, payload: 185 };
    assert_eq!(m.to_bytes(), [0x90, 60, 185]);
}
