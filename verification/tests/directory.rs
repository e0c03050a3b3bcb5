use osc_to_gpio::config::{PinConfig, PinIO};
use osc_to_gpio::pins::{find_pin, ConfigurationError, PinDirectory, PinState};

fn pin(pin: u8, io: PinIO, state: bool) -> PinConfig {
    PinConfig { pin, io, state }
}

#[test]
fn build_splits_by_direction_in_configured_order() {
    let pins = vec![
        pin(5, PinIO::Readable, false),
        pin(3, PinIO::Writeable, true),
        pin(9, PinIO::Readable, true),
        pin(1, PinIO::Writeable, false),
        pin(0, PinIO::Readable, false),
    ];
    let directory = PinDirectory::build(&pins).ok().unwrap();
    assert_eq!(
        directory.readable(),
        &vec![
            PinState { pin: 5, state: false },
            PinState { pin: 9, state: true },
            PinState { pin: 0, state: false },
        ]
    );
    assert_eq!(
        directory.writeable(),
        &vec![PinState { pin: 3, state: true }, PinState { pin: 1, state: false }]
    );
}

#[test]
fn build_accepts_inputs_only_and_outputs_only() {
    let inputs = PinDirectory::build(&vec![pin(5, PinIO::Readable, true)]).ok().unwrap();
    assert_eq!(inputs.readable(), &vec![PinState { pin: 5, state: true }]);
    assert!(inputs.writeable().is_empty());
    let outputs = PinDirectory::build(&vec![pin(255, PinIO::Writeable, false)]).ok().unwrap();
    assert!(outputs.readable().is_empty());
    assert_eq!(outputs.writeable(), &vec![PinState { pin: 255, state: false }]);
}

#[test]
fn build_refuses_an_empty_list() {
    assert_eq!(PinDirectory::build(&vec![]).err(), Some(ConfigurationError::NoPins));
}

#[test]
fn build_refuses_a_repeat_within_a_partition() {
    let pins = vec![
        pin(4, PinIO::Readable, false),
        pin(6, PinIO::Readable, false),
        pin(4, PinIO::Readable, true),
    ];
    assert_eq!(PinDirectory::build(&pins).err(), Some(ConfigurationError::DuplicatePin(4)));
}

#[test]
fn build_refuses_a_repeat_across_partitions() {
    let pins = vec![pin(4, PinIO::Readable, false), pin(4, PinIO::Writeable, false)];
    assert_eq!(PinDirectory::build(&pins).err(), Some(ConfigurationError::DuplicatePin(4)));
}

#[test]
fn build_reports_the_first_entry_that_repeats() {
    let pins = vec![
        pin(1, PinIO::Readable, false),
        pin(2, PinIO::Writeable, false),
        pin(3, PinIO::Readable, false),
        pin(2, PinIO::Readable, false),
        pin(1, PinIO::Writeable, false),
    ];
    assert_eq!(PinDirectory::build(&pins).err(), Some(ConfigurationError::DuplicatePin(2)));
}

#[test]
fn build_takes_all_identifiers_at_once() {
    let mut pins = Vec::new();
    for id in 0..=255u8 {
        let io = if id % 2 == 0 { PinIO::Readable } else { PinIO::Writeable };
        pins.push(pin(id, io, id % 3 == 0));
    }
    let directory = PinDirectory::build(&pins).ok().unwrap();
    assert_eq!(directory.readable().len(), 128);
    assert_eq!(directory.writeable().len(), 128);
    assert_eq!(directory.lookup_readable(254), Some(PinState { pin: 254, state: false }));
    assert_eq!(directory.lookup_writeable(255), Some(PinState { pin: 255, state: true }));
    pins.push(pin(255, PinIO::Readable, false));
    assert_eq!(PinDirectory::build(&pins).err(), Some(ConfigurationError::DuplicatePin(255)));
}

#[test]
fn empty_directory_has_no_lines() {
    let directory = PinDirectory::empty();
    assert!(directory.readable().is_empty());
    assert!(directory.writeable().is_empty());
    assert_eq!(directory.lookup_readable(0), None);
    assert_eq!(directory.lookup_writeable(0), None);
}

#[test]
fn lookup_stays_within_its_partition() {
    let pins = vec![pin(5, PinIO::Readable, true), pin(3, PinIO::Writeable, false)];
    let directory = PinDirectory::build(&pins).ok().unwrap();
    assert_eq!(directory.lookup_readable(5), Some(PinState { pin: 5, state: true }));
    assert_eq!(directory.lookup_readable(3), None);
    assert_eq!(directory.lookup_writeable(3), Some(PinState { pin: 3, state: false }));
    assert_eq!(directory.lookup_writeable(5), None);
    assert_eq!(directory.lookup_writeable(7), None);
}

#[test]
fn partitions_share_no_identifier() {
    let pins = vec![
        pin(5, PinIO::Readable, false),
        pin(3, PinIO::Writeable, true),
        pin(9, PinIO::Readable, true),
    ];
    let directory = PinDirectory::build(&pins).ok().unwrap();
    for r in directory.readable() {
        assert_eq!(directory.lookup_writeable(r.pin), None);
    }
    for w in directory.writeable() {
        assert_eq!(directory.lookup_readable(w.pin), None);
    }
}

#[test]
fn split_hands_each_partition_to_its_worker() {
    let pins = vec![
        pin(5, PinIO::Readable, false),
        pin(3, PinIO::Writeable, true),
        pin(9, PinIO::Readable, true),
    ];
    let (listener, poller) = PinDirectory::build(&pins).ok().unwrap().split();
    assert_eq!(listener.pins(), &vec![PinState { pin: 3, state: true }]);
    assert_eq!(
        poller.pins(),
        &vec![PinState { pin: 5, state: false }, PinState { pin: 9, state: true }]
    );
}

#[test]
fn find_pin_gives_the_position() {
    let pins = vec![
        PinState { pin: 5, state: false },
        PinState { pin: 3, state: true },
        PinState { pin: 9, state: true },
    ];
    assert_eq!(find_pin(&pins, 5), Some(0));
    assert_eq!(find_pin(&pins, 9), Some(2));
    assert_eq!(find_pin(&pins, 4), None);
    assert_eq!(find_pin(&Vec::new(), 4), None);
}
