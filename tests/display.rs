use akafugu_twidisplay::encode::{date_is_valid, dots_mask, reading_to_cells};
use akafugu_twidisplay::{
    Action, DateFormat, Error, Mode, TWIDisplay, TempUnits, Transaction, DEFAULT_ADDRESS,
};

/// A bus that records every write and fails the write at index `fail_at`.
struct MockBus {
    writes: Vec<(u8, Vec<u8>)>,
    fail_at: Option<usize>,
}

impl MockBus {
    fn new() -> Self {
        MockBus { writes: Vec::new(), fail_at: None }
    }

    fn failing_at(index: usize) -> Self {
        MockBus { writes: Vec::new(), fail_at: Some(index) }
    }
}

fn run(mut t: Transaction, bus: &mut MockBus) -> Result<(), Error<u32>> {
    let mut outcome: Option<Result<(), u32>> = None;
    loop {
        match t.step(outcome) {
            Action::Write(address, payload) => {
                let index = bus.writes.len();
                bus.writes.push((address, payload));
                outcome = Some(if bus.fail_at == Some(index) { Err(7) } else { Ok(()) });
            }
            Action::Done(result) => return result,
        }
    }
}

fn payloads(t: Transaction) -> Vec<Vec<u8>> {
    let mut bus = MockBus::new();
    assert!(run(t, &mut bus).is_ok());
    bus.writes.into_iter().map(|(_, p)| p).collect()
}

fn display() -> TWIDisplay<()> {
    TWIDisplay::new((), DEFAULT_ADDRESS)
}

fn cells(t: Transaction) -> Vec<u8> {
    let frames = payloads(t);
    assert_eq!(frames.len(), 4);
    for (i, f) in frames.iter().enumerate() {
        assert_eq!(f.len(), 3);
        assert_eq!(f[0], 0x89);
        assert_eq!(f[1] as usize, i);
    }
    frames.iter().map(|f| f[2]).collect()
}

#[test]
fn digits_of_1234() {
    assert_eq!(TWIDisplay::<()>::get_digits(1234), [1, 2, 3, 4]);
}

#[test]
fn digits_of_23_keep_leading_zeros() {
    assert_eq!(TWIDisplay::<()>::get_digits(23), [0, 0, 2, 3]);
}

#[test]
fn digits_recompose_every_number() {
    for n in 0u16..=9999 {
        let d = TWIDisplay::<()>::get_digits(n);
        assert!(d.iter().all(|x| *x <= 9));
        let v = d[0] as u16 * 1000 + d[1] as u16 * 100 + d[2] as u16 * 10 + d[3] as u16;
        assert_eq!(v, n);
    }
}

#[test]
fn display_number_writes_four_positions() {
    let r: Result<Transaction, Error<u32>> = display().display_number(23);
    let frames = payloads(r.ok().unwrap());
    assert_eq!(
        frames,
        vec![vec![0x89, 0, 0], vec![0x89, 1, 0], vec![0x89, 2, 2], vec![0x89, 3, 3]]
    );
}

#[test]
fn display_number_rejects_10000() {
    let r: Result<Transaction, Error<u32>> = display().display_number(10000);
    assert!(matches!(r, Err(Error::InvalidInputData)));
    let r: Result<Transaction, Error<u32>> = display().display_number(u16::MAX);
    assert!(matches!(r, Err(Error::InvalidInputData)));
}

#[test]
fn dot_masks() {
    assert_eq!(dots_mask([false, false, false, false]), 0);
    assert_eq!(dots_mask([true, false, false, false]), 2);
    assert_eq!(dots_mask([false, true, false, false]), 4);
    assert_eq!(dots_mask([true, true, true, true]), 30);
    assert_eq!(payloads(display().display_dots([true, false, true, false])), vec![vec![0x85, 10]]);
}

#[test]
fn time_2359_with_dot() {
    let r: Result<Transaction, Error<u32>> = display().display_time(23, 59, true);
    let frames = payloads(r.ok().unwrap());
    assert_eq!(
        frames,
        vec![
            vec![0x89, 0, 2],
            vec![0x89, 1, 3],
            vec![0x89, 2, 5],
            vec![0x89, 3, 9],
            vec![0x85, 4],
        ]
    );
}

#[test]
fn time_without_dot_clears_dots() {
    let r: Result<Transaction, Error<u32>> = display().display_time(7, 5, false);
    let frames = payloads(r.ok().unwrap());
    assert_eq!(frames[0..4], [vec![0x89, 0, 0], vec![0x89, 1, 7], vec![0x89, 2, 0], vec![0x89, 3, 5]]);
    assert_eq!(frames[4], vec![0x85, 0]);
}

#[test]
fn time_out_of_range() {
    let r: Result<Transaction, Error<u32>> = display().display_time(24, 0, false);
    assert!(matches!(r, Err(Error::InvalidInputData)));
    let r: Result<Transaction, Error<u32>> = display().display_time(0, 60, false);
    assert!(matches!(r, Err(Error::InvalidInputData)));
}

#[test]
fn date_limits() {
    let r: Result<Transaction, Error<u32>> = display().display_date(2, 30, DateFormat::MMDD, false);
    assert!(matches!(r, Err(Error::InvalidInputData)));
    let r: Result<Transaction, Error<u32>> = display().display_date(4, 31, DateFormat::DDMM, true);
    assert!(matches!(r, Err(Error::InvalidInputData)));
    let r: Result<Transaction, Error<u32>> = display().display_date(13, 1, DateFormat::DDMM, true);
    assert!(matches!(r, Err(Error::InvalidInputData)));
    let r: Result<Transaction, Error<u32>> = display().display_date(1, 0, DateFormat::DDMM, true);
    assert!(matches!(r, Err(Error::InvalidInputData)));
    assert!(date_is_valid(2, 29));
    assert!(date_is_valid(1, 31));
    assert!(!date_is_valid(6, 31));
    assert!(!date_is_valid(0, 10));
}

#[test]
fn date_1225_mmdd() {
    let r: Result<Transaction, Error<u32>> = display().display_date(12, 25, DateFormat::MMDD, true);
    let frames = payloads(r.ok().unwrap());
    assert_eq!(
        frames,
        vec![
            vec![0x89, 0, 1],
            vec![0x89, 1, 2],
            vec![0x89, 2, 2],
            vec![0x89, 3, 5],
            vec![0x85, 4],
        ]
    );
}

#[test]
fn date_formats_order_day_and_month() {
    let r: Result<Transaction, Error<u32>> = display().display_date(3, 15, DateFormat::DDMM, false);
    let frames = payloads(r.ok().unwrap());
    let digits: Vec<u8> = frames[0..4].iter().map(|f| f[2]).collect();
    assert_eq!(digits, vec![1, 5, 0, 3]);
    let r: Result<Transaction, Error<u32>> = display().display_date(3, 15, DateFormat::MMDD, false);
    let frames = payloads(r.ok().unwrap());
    let digits: Vec<u8> = frames[0..4].iter().map(|f| f[2]).collect();
    assert_eq!(digits, vec![0, 3, 1, 5]);
    assert_eq!(frames[4], vec![0x85, 0]);
}

#[test]
fn temperature_below_absolute_minimum() {
    let t = display().display_temperature(-150, TempUnits::Celsius, None, None);
    assert_eq!(cells(t), b"----".to_vec());
}

#[test]
fn temperature_below_low_threshold() {
    let t = display().display_temperature(-60, TempUnits::Celsius, Some(-50), None);
    assert_eq!(cells(t), b"-LL-".to_vec());
}

#[test]
fn temperature_above_high_threshold() {
    let t = display().display_temperature(70, TempUnits::Fahrenheit, None, Some(60));
    assert_eq!(cells(t), b"-HH-".to_vec());
}

#[test]
fn temperature_950_celsius() {
    let t = display().display_temperature(950, TempUnits::Celsius, Some(-50), None);
    assert_eq!(cells(t), vec![9, 5, 0, b'C']);
}

#[test]
fn temperature_small_values_blank_leading_zeros() {
    let t = display().display_temperature(-5, TempUnits::Celsius, None, None);
    assert_eq!(cells(t), vec![b'-', b' ', 5, b'C']);
    let t = display().display_temperature(-45, TempUnits::Fahrenheit, None, None);
    assert_eq!(cells(t), vec![b'-', 4, 5, b'F']);
    let t = display().display_temperature(7, TempUnits::Celsius, None, None);
    assert_eq!(cells(t), vec![b' ', b' ', 7, b'C']);
    let t = display().display_temperature(105, TempUnits::Celsius, None, None);
    assert_eq!(cells(t), vec![1, 0, 5, b'C']);
    let t = display().display_temperature(1000, TempUnits::Celsius, None, None);
    assert_eq!(cells(t), b"----".to_vec());
}

#[test]
fn humidity_limits_and_thresholds() {
    let t = display().display_humidity(55, Some(10), Some(90));
    assert_eq!(cells(t), vec![b' ', 5, 5, b'H']);
    let t = display().display_humidity(95, Some(10), Some(90));
    assert_eq!(cells(t), b"-HH-".to_vec());
    let t = display().display_humidity(5, Some(10), Some(90));
    assert_eq!(cells(t), b"-LL-".to_vec());
    let t = display().display_humidity(101, None, None);
    assert_eq!(cells(t), b"----".to_vec());
    let t = display().display_humidity(-1, None, None);
    assert_eq!(cells(t), b"----".to_vec());
    let t = display().display_humidity(100, None, None);
    assert_eq!(cells(t), vec![1, 0, 0, b'H']);
}

#[test]
fn reading_cells_direct() {
    assert_eq!(reading_to_cells(-60, b'C', Some(-50), None, -99, 999), *b"-LL-");
    assert_eq!(reading_to_cells(0, b'C', None, None, -99, 999), [b' ', b' ', 0, b'C']);
}

#[test]
fn set_address_out_of_range_writes_nothing() {
    let mut bus = MockBus::new();
    assert!(run(display().set_address(0x50), &mut bus).is_ok());
    assert!(bus.writes.is_empty());
}

#[test]
fn set_address_in_range_writes_once() {
    let mut bus = MockBus::new();
    assert!(run(display().set_address(0x30), &mut bus).is_ok());
    assert_eq!(bus.writes, vec![(DEFAULT_ADDRESS, vec![0x81, 0x30])]);
}

#[test]
fn send_text_aborts_at_first_failure() {
    let mut bus = MockBus::failing_at(1);
    let r = run(display().send_text("ABC"), &mut bus);
    assert!(matches!(r, Err(Error::I2C(7))));
    assert_eq!(bus.writes, vec![(DEFAULT_ADDRESS, vec![b'A']), (DEFAULT_ADDRESS, vec![b'B'])]);
}

#[test]
fn send_text_writes_each_character() {
    assert_eq!(payloads(display().send_text("HELLO")), vec![vec![b'H'], vec![b'E'], vec![b'L'], vec![b'L'], vec![b'O']]);
    assert!(payloads(display().send_text("")).is_empty());
}

#[test]
fn failure_on_first_write_stops_number() {
    let mut bus = MockBus::failing_at(0);
    let r: Result<Transaction, Error<u32>> = display().display_number(1234);
    let r = run(r.ok().unwrap(), &mut bus);
    assert!(matches!(r, Err(Error::I2C(7))));
    assert_eq!(bus.writes.len(), 1);
}

#[test]
fn single_byte_commands() {
    assert_eq!(payloads(display().clear_display()), vec![vec![0x82]]);
    assert_eq!(payloads(display().display_address()), vec![vec![0x90]]);
    assert_eq!(payloads(display().set_brightness(200)), vec![vec![0x80, 200]]);
    assert_eq!(payloads(display().set_mode(Mode::Scroll)), vec![vec![0x83, 1]]);
    assert_eq!(payloads(display().set_mode(Mode::Rotate)), vec![vec![0x83, 0]]);
    assert_eq!(payloads(display().send_char('A')), vec![vec![0x41]]);
}

#[test]
fn digits_and_characters_at_positions() {
    let r: Result<Transaction, Error<u32>> = display().send_digit(7);
    assert_eq!(payloads(r.ok().unwrap()), vec![vec![7]]);
    let r: Result<Transaction, Error<u32>> = display().send_digit(10);
    assert!(matches!(r, Err(Error::InvalidInputData)));
    let r: Result<Transaction, Error<u32>> = display().display_digit(2, 7);
    assert_eq!(payloads(r.ok().unwrap()), vec![vec![0x89, 2, 7]]);
    let r: Result<Transaction, Error<u32>> = display().display_digit(4, 7);
    assert!(matches!(r, Err(Error::InvalidInputData)));
    let r: Result<Transaction, Error<u32>> = display().display_digit(1, 10);
    assert!(matches!(r, Err(Error::InvalidInputData)));
    let r: Result<Transaction, Error<u32>> = display().display_char(3, 'P');
    assert_eq!(payloads(r.ok().unwrap()), vec![vec![0x89, 3, b'P']]);
    let r: Result<Transaction, Error<u32>> = display().display_char(4, 'P');
    assert!(matches!(r, Err(Error::InvalidInputData)));
}

#[test]
fn writes_go_to_the_driver_address() {
    let d = TWIDisplay::new(5u32, 0x21);
    assert_eq!(d.address(), 0x21);
    let mut bus = MockBus::new();
    assert!(run(d.clear_display(), &mut bus).is_ok());
    assert_eq!(bus.writes, vec![(0x21, vec![0x82])]);
    assert_eq!(d.destroy(), 5);
}

#[test]
fn transaction_accessors() {
    let t = Transaction::new(0x12, vec![vec![1, 2], vec![3]]);
    assert_eq!(t.len(), 2);
    assert_eq!(t.frame(1), vec![3]);
    assert_eq!(t.address(), 0x12);
    assert!(!t.is_finished());
}

#[test]
fn reading_cells_with_wide_range_use_default_limits() {
    assert_eq!(reading_to_cells(-600, b'C', None, None, -500, 2000), *b"----");
    assert_eq!(reading_to_cells(-150, b'C', None, None, -500, 2000), *b"-LL-");
    assert_eq!(reading_to_cells(1500, b'C', None, None, -500, 2000), *b"-HH-");
    assert_eq!(reading_to_cells(1500, b'C', None, Some(999), -500, 2000), *b"-HH-");
    assert_eq!(reading_to_cells(-99, b'C', None, None, -500, 2000), [b'-', 9, 9, b'C']);
    assert_eq!(reading_to_cells(999, b'C', None, None, -500, 2000), [9, 9, 9, b'C']);
}
