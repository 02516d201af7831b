use waveshare_rpi::epd_configs::{epd2in9d, epd7in5_v2, Action, EpdConfig};
use waveshare_rpi::protocol::{poll_busy, DATA_BUFFER_SIZE};
use waveshare_rpi::{BusOp, Epd, ImgSizeMismatchError, PollStep};

/// What a bus saw: every write, in order, and how it waited.
#[derive(Debug, Clone, PartialEq)]
enum Event {
    Reset(bool),
    Command(u8),
    Data(Vec<u8>),
    Pause(u64),
    BusyRead(bool),
}

/// A stand-in for the panel's bus: records what is done to it and answers
/// busy reads from a script (`false` while busy).
struct MockTransport {
    events: Vec<Event>,
    busy_script: Vec<bool>,
    writes: usize,
}

impl MockTransport {
    fn new(busy_script: Vec<bool>) -> Self {
        MockTransport { events: Vec::new(), busy_script, writes: 0 }
    }

    fn read_busy_line(&mut self) -> bool {
        let level = if self.busy_script.is_empty() { true } else { self.busy_script.remove(0) };
        self.events.push(Event::BusyRead(level));
        level
    }

    fn run(&mut self, ops: &[BusOp]) {
        for op in ops {
            match op {
                BusOp::Reset(level) => self.events.push(Event::Reset(*level)),
                BusOp::Command(c) => {
                    self.writes += 1;
                    self.events.push(Event::Command(*c));
                }
                BusOp::Data(d) => {
                    self.writes += 1;
                    self.events.push(Event::Data(d.clone()));
                }
                BusOp::Delay(ms) => self.events.push(Event::Pause(*ms)),
                BusOp::WaitIdle => loop {
                    let level = self.read_busy_line();
                    match poll_busy(level) {
                        PollStep::Done => break,
                        PollStep::Pause(ms) => self.events.push(Event::Pause(ms)),
                    }
                },
            }
        }
    }
}

fn small_profile() -> EpdConfig {
    EpdConfig {
        init_commands: vec![
            Action::SendCommand(0x04),
            Action::ReadBusy,
            Action::SendCommand(0x00),
            Action::SendData(vec![0x1f, 0x2e]),
            Action::Delay(7),
        ],
        width: 8,
        height: 8,
    }
}

fn reset_events() -> Vec<Event> {
    vec![
        Event::Reset(true),
        Event::Pause(20),
        Event::Reset(false),
        Event::Pause(2),
        Event::Reset(true),
        Event::Pause(20),
    ]
}

#[test]
fn clear_test() {
    let (epd, _) = Epd::new(epd7in5_v2::epd_config());
    let ops = epd.clear();
    let mut bus = MockTransport::new(vec![]);
    bus.run(&ops);
    let frame = 800 * 480 / 8;
    let chunks = (frame + DATA_BUFFER_SIZE - 1) / DATA_BUFFER_SIZE;
    assert_eq!(bus.events[0], Event::Command(0x10));
    assert_eq!(bus.events[1 + chunks], Event::Command(0x13));
    let zeros: usize = bus
        .events
        .iter()
        .map(|e| match e {
            Event::Data(d) => {
                assert!(d.iter().all(|b| *b == 0));
                d.len()
            }
            _ => 0,
        })
        .sum();
    assert_eq!(zeros, 2 * frame);
    let tail = &bus.events[bus.events.len() - 4..];
    assert_eq!(
        tail,
        &[Event::Command(0x12), Event::Pause(100), Event::Command(0x71), Event::BusyRead(true)]
    );
}

#[test]
fn init_replays_profile_actions_in_order() {
    let (epd, ops) = Epd::new(small_profile());
    assert!(epd.is_awake());
    let mut bus = MockTransport::new(vec![false, false, true]);
    bus.run(&ops);
    let mut expected = reset_events();
    expected.extend(vec![
        Event::Command(0x04),
        Event::Command(0x71),
        Event::BusyRead(false),
        Event::Pause(100),
        Event::BusyRead(false),
        Event::Pause(100),
        Event::BusyRead(true),
        Event::Command(0x00),
        Event::Data(vec![0x1f, 0x2e]),
        Event::Pause(7),
    ]);
    assert_eq!(bus.events, expected);
}

#[test]
fn init_of_shipped_profile_sends_every_action() {
    let (_, ops) = Epd::new(epd2in9d::epd_config());
    let mut bus = MockTransport::new(vec![]);
    bus.run(&ops);
    let mut expected = reset_events();
    expected.extend(vec![
        Event::Command(0x04),
        Event::Command(0x71),
        Event::BusyRead(true),
        Event::Command(0x00),
        Event::Data(vec![0x1f]),
        Event::Command(0x61),
        Event::Data(vec![0x08, 0x01, 0x28]),
        Event::Command(0x50),
        Event::Data(vec![0x97]),
    ]);
    assert_eq!(bus.events, expected);
}

#[test]
fn display_with_wrong_size_touches_no_bus() {
    let (epd, _) = Epd::new(small_profile());
    let mut bus = MockTransport::new(vec![]);
    for len in [0usize, 7, 9, 64] {
        let data = vec![0xAAu8; len];
        match epd.display(&data) {
            Err(e) => assert_eq!(e, ImgSizeMismatchError),
            Ok(ops) => bus.run(&ops),
        }
    }
    assert_eq!(bus.writes, 0);
    assert!(bus.events.is_empty());
}

#[test]
fn display_sends_frame_then_refreshes() {
    let (epd, _) = Epd::new(small_profile());
    let data: Vec<u8> = (0u8..8).collect();
    let ops = epd.display(&data).unwrap();
    let mut bus = MockTransport::new(vec![false, true]);
    bus.run(&ops);
    assert_eq!(
        bus.events,
        vec![
            Event::Command(0x13),
            Event::Data(data.clone()),
            Event::Command(0x12),
            Event::Pause(100),
            Event::Command(0x71),
            Event::BusyRead(false),
            Event::Pause(100),
            Event::BusyRead(true),
        ]
    );
}

#[test]
fn display_splits_large_frames_into_chunks() {
    let (epd, _) = Epd::new(epd7in5_v2::epd_config());
    let data: Vec<u8> = (0..48000usize).map(|i| (i % 251) as u8).collect();
    let ops = epd.display(&data).unwrap();
    let chunks: Vec<&Vec<u8>> = ops
        .iter()
        .filter_map(|op| match op {
            BusOp::Data(d) => Some(d),
            _ => None,
        })
        .collect();
    assert_eq!(chunks.len(), 12);
    assert!(chunks[..11].iter().all(|c| c.len() == 4096));
    assert_eq!(chunks[11].len(), 48000 - 11 * 4096);
    let joined: Vec<u8> = chunks.iter().flat_map(|c| c.iter().copied()).collect();
    assert_eq!(joined, data);
}

#[test]
fn sleep_powers_off_and_latches() {
    let (mut epd, _) = Epd::new(small_profile());
    let ops = epd.sleep();
    assert!(!epd.is_awake());
    let mut bus = MockTransport::new(vec![]);
    bus.run(&ops);
    let again = epd.init();
    assert!(epd.is_awake());
    let mut rebus = MockTransport::new(vec![]);
    rebus.run(&again);
    assert_eq!(rebus.events[..6].to_vec(), reset_events());
    assert_eq!(
        bus.events,
        vec![
            Event::Command(0x02),
            Event::Command(0x71),
            Event::BusyRead(true),
            Event::Command(0x07),
            Event::Data(vec![0xA5]),
            Event::Pause(1500),
        ]
    );
}

#[test]
fn read_busy_asks_status_then_waits() {
    let (epd, _) = Epd::new(small_profile());
    let ops = epd.read_busy();
    assert_eq!(ops.len(), 2);
    assert!(matches!(ops[0], BusOp::Command(0x71)));
    assert!(matches!(ops[1], BusOp::WaitIdle));
}

#[test]
fn poll_busy_waits_while_line_is_low() {
    assert_eq!(poll_busy(true), PollStep::Done);
    assert_eq!(poll_busy(false), PollStep::Pause(100));
}

#[test]
fn image_buffer_size_of_profiles() {
    assert_eq!(Epd::new(epd7in5_v2::epd_config()).0.image_buffer_size(), 48000);
    assert_eq!(Epd::new(epd2in9d::epd_config()).0.image_buffer_size(), 4736);
    assert_eq!(Epd::new(small_profile()).0.image_buffer_size(), 8);
}

#[test]
fn default_session_drives_the_large_panel() {
    let (epd, ops) = Epd::default();
    assert_eq!(epd.image_buffer_size(), 48000);
    assert!(epd.is_awake());
    let mut bus = MockTransport::new(vec![]);
    bus.run(&ops);
    let mut expected = reset_events();
    expected.extend(vec![
        Event::Command(0x06),
        Event::Data(vec![0x17, 0x17, 0x28, 0x17]),
        Event::Command(0x01),
        Event::Data(vec![0x07, 0x07, 0x3f, 0x3f]),
        Event::Command(0x04),
        Event::Command(0x71),
        Event::BusyRead(true),
        Event::Command(0x00),
        Event::Data(vec![0x1f]),
        Event::Command(0x61),
        Event::Data(vec![0x03, 0x20, 0x01, 0xE0]),
        Event::Command(0x15),
        Event::Data(vec![0x00]),
        Event::Command(0x50),
        Event::Data(vec![0x10, 0x07]),
        Event::Command(0x60),
        Event::Data(vec![0x22]),
    ]);
    assert_eq!(bus.events, expected);
}
