//! The display driver: each operation validates its input and plans its writes.
use vstd::prelude::*;

use crate::encode::{
    date_is_valid, digits_of, dot_mask, dots_mask, is_valid_date, reading_cells,
    high_threshold, low_threshold, reading_to_cells,
};
use crate::error::Error;
use crate::register::{
    BRIGHTNESS_SETTING, CLEAR_DISPLAY, DISPLAY_ADDRESS, DOTS, I2C_ADDRESS_SETTING,
    MAX_SETTABLE_ADDRESS, MODE_SETTING, POSITION_SETTING,
};
use crate::transaction::{fresh, frames_view, Transaction};

verus! {

/// Possible choices for temperature units.
#[derive(Copy, Clone, Debug)]
pub enum TempUnits {
    /// Celsius degrees
    Celsius,
    /// Fahrenheit degrees
    Fahrenheit,
}

/// Possible choices for date format.
#[allow(non_camel_case_types)]
#[derive(Copy, Clone, Debug)]
pub enum DateFormat {
    /// Month, then day
    MMDD,
    /// Day, then month
    DDMM,
}

/// The two display modes.
#[derive(Copy, Clone, Debug)]
pub enum Mode {
    /// New characters push the others to the left
    Scroll,
    /// New characters overwrite positions in turn
    Rotate,
}

/// Code of the humidity unit, the letter H.
pub const HUMIDITY_UNIT: u8 = 0x48;

/// Code of the letter C.
pub const CELSIUS_UNIT: u8 = 0x43;

/// Code of the letter F.
pub const FAHRENHEIT_UNIT: u8 = 0x46;

/// The frame that writes `code` at `position`.
pub open spec fn position_frame(position: int, code: u8) -> Seq<u8> {
    seq![POSITION_SETTING, position as u8, code]
}

/// The four frames that write `cells` at positions 0 to 3.
pub open spec fn cells_frames(cells: Seq<u8>) -> Seq<Seq<u8>> {
    Seq::new(4, |i: int| position_frame(i, cells[i]))
}

/// The frames that show `n` with leading zeros.
pub open spec fn number_frames(n: int) -> Seq<Seq<u8>> {
    cells_frames(digits_of(n))
}

/// The frame that switches the dots.
pub open spec fn dots_frame(dots: Seq<bool>) -> Seq<u8> {
    seq![DOTS, dot_mask(dots) as u8]
}

/// The dots of a time or date: the second one, when `dot` is set.
pub open spec fn center_dots(dot: bool) -> Seq<bool> {
    seq![false, dot, false, false]
}

/// The number that shows a time: hours, then minutes.
pub open spec fn time_value(hours: int, minutes: int) -> int {
    hours * 100 + minutes
}

/// The number that shows a date in `format`.
pub open spec fn date_value(month: int, day: int, format: DateFormat) -> int {
    match format {
        DateFormat::DDMM => day * 100 + month,
        DateFormat::MMDD => month * 100 + day,
    }
}

/// The mode byte: 1 for scroll, 0 for rotate.
pub open spec fn mode_byte(mode: Mode) -> u8 {
    match mode {
        Mode::Scroll => 1,
        Mode::Rotate => 0,
    }
}

/// Code of a temperature unit's letter.
pub open spec fn unit_code(unit: TempUnits) -> u8 {
    match unit {
        TempUnits::Celsius => CELSIUS_UNIT,
        TempUnits::Fahrenheit => FAHRENHEIT_UNIT,
    }
}

/// The byte a character is sent as: its code truncated to eight bits.
pub open spec fn char_code(c: char) -> u8 {
    c as u8
}

/// One frame per character of `text`, each the character's byte.
pub open spec fn text_frames(text: Seq<char>) -> Seq<Seq<u8>> {
    text.map_values(|c: char| seq![char_code(c)])
}

fn position_frame_vec(position: u8, code: u8) -> (r: Vec<u8>)
    ensures
        r@ == position_frame(position as int, code),
{
    let r = vec![POSITION_SETTING, position, code];
    assert(r@ =~= position_frame(position as int, code));
    r
}

fn cells_frames_vec(cells: [u8; 4]) -> (r: Vec<Vec<u8>>)
    ensures
        frames_view(r@) == cells_frames(cells@),
{
    let r = vec![
        position_frame_vec(0, cells[0]),
        position_frame_vec(1, cells[1]),
        position_frame_vec(2, cells[2]),
        position_frame_vec(3, cells[3]),
    ];
    assert(frames_view(r@) =~= cells_frames(cells@));
    r
}

fn dots_frame_vec(dots: [bool; 4]) -> (r: Vec<u8>)
    ensures
        r@ == dots_frame(dots@),
{
    let r = vec![DOTS, dots_mask(dots)];
    assert(r@ =~= dots_frame(dots@));
    r
}

fn single(frame: Vec<u8>) -> (r: Vec<Vec<u8>>)
    ensures
        frames_view(r@) == seq![frame@],
{
    let r = vec![frame];
    assert(frames_view(r@) =~= seq![frame@]);
    r
}

fn number_frames_vec(number: u16) -> (r: Vec<Vec<u8>>)
    ensures
        frames_view(r@) == number_frames(number as int),
{
    cells_frames_vec(TWIDisplay::<()>::get_digits(number))
}

/// Driver of a TWIDisplay: the bus handle and the device's address.
#[derive(Debug, Default)]
pub struct TWIDisplay<I2C> {
    i2c: I2C,
    dev_addr: u8,
}

impl<I2C> TWIDisplay<I2C> {
    /// The bus handle the driver owns.
    pub closed spec fn bus(&self) -> I2C {
        self.i2c
    }

    /// The device address writes go to.
    pub closed spec fn addr(&self) -> u8 {
        self.dev_addr
    }

    /// A transaction of these frames to the device.
    pub open spec fn planned(&self, t: Transaction, frames: Seq<Seq<u8>>) -> bool {
        t@ == fresh(self.addr(), frames)
    }

    /// Creates a driver for the device at `dev_addr` on the bus `i2c`; writes nothing.
    pub fn new(i2c: I2C, dev_addr: u8) -> (r: Self)
        ensures
            r.bus() == i2c,
            r.addr() == dev_addr,
    {
        TWIDisplay { i2c, dev_addr }
    }

    /// Gives the bus handle back.
    pub fn destroy(self) -> (r: I2C)
        ensures
            r == self.bus(),
    {
        self.i2c
    }

    /// The device address writes go to.
    pub fn address(&self) -> (r: u8)
        ensures
            r == self.addr(),
    {
        self.dev_addr
    }

    /// The bus handle, for carrying out a transaction's writes.
    pub fn bus_mut(&mut self) -> (r: &mut I2C)
        ensures
            *r == old(self).bus(),
            final(self).bus() == *final(r),
            final(self).addr() == old(self).addr(),
    {
        &mut self.i2c
    }

    /// The four decimal digits of a number, thousands first.
    pub fn get_digits(number: u16) -> (r: [u8; 4])
        ensures
            r@ == digits_of(number as int),
            number <= 9999 ==> r[0] * 1000 + r[1] * 100 + r[2] * 10 + r[3] == number,
            number <= 9999 ==> r[0] <= 9 && r[1] <= 9 && r[2] <= 9 && r[3] <= 9,
    {
        let mut data: u16 = number;
        let mut digits: [u8; 4] = [0u8; 4];
        digits[0] = (data / 1000) as u8;
        data = data % 1000;
        digits[1] = (data / 100) as u8;
        data = data % 100;
        digits[2] = (data / 10) as u8;
        data = data % 10;
        digits[3] = data as u8;
        proof {
            assert((number % 1000) % 100 == number % 100 && (number % 100) % 10 == number % 10)
                by (bit_vector);
            assert(number <= 9999 ==> (number / 1000) * 1000 + ((number % 1000) / 100) * 100 + ((
            number % 100) / 10) * 10 + number % 10 == number) by (bit_vector);
            assert(number <= 9999 ==> number / 1000 <= 9) by (bit_vector);
        }
        assert(digits@ =~= digits_of(number as int));
        digits
    }

    /// Clears the display.
    pub fn clear_display(&self) -> (t: Transaction)
        ensures
            self.planned(t, seq![seq![CLEAR_DISPLAY]]),
    {
        let frame = vec![CLEAR_DISPLAY];
        assert(frame@ =~= seq![CLEAR_DISPLAY]);
        Transaction::new(self.dev_addr, single(frame))
    }

    /// Gives the device a new bus address, taking effect at its next power-up. Addresses
    /// above `MAX_SETTABLE_ADDRESS` are ignored: nothing is written.
    pub fn set_address(&self, address: u8) -> (t: Transaction)
        ensures
            address <= MAX_SETTABLE_ADDRESS ==> self.planned(
                t,
                seq![seq![I2C_ADDRESS_SETTING, address]],
            ),
            address > MAX_SETTABLE_ADDRESS ==> self.planned(t, seq![]),
    {
        if address <= MAX_SETTABLE_ADDRESS {
            let frame = vec![I2C_ADDRESS_SETTING, address];
            assert(frame@ =~= seq![I2C_ADDRESS_SETTING, address]);
            Transaction::new(self.dev_addr, single(frame))
        } else {
            let t = Transaction::new(self.dev_addr, Vec::new());
            assert(t@.frames =~= seq![]);
            t
        }
    }

    /// Shows the device's current bus address on the display.
    pub fn display_address(&self) -> (t: Transaction)
        ensures
            self.planned(t, seq![seq![DISPLAY_ADDRESS]]),
    {
        let frame = vec![DISPLAY_ADDRESS];
        assert(frame@ =~= seq![DISPLAY_ADDRESS]);
        Transaction::new(self.dev_addr, single(frame))
    }

    /// Sets the brightness, 0 to 255 (127 is about half).
    pub fn set_brightness(&self, brightness: u8) -> (t: Transaction)
        ensures
            self.planned(t, seq![seq![BRIGHTNESS_SETTING, brightness]]),
    {
        let frame = vec![BRIGHTNESS_SETTING, brightness];
        assert(frame@ =~= seq![BRIGHTNESS_SETTING, brightness]);
        Transaction::new(self.dev_addr, single(frame))
    }

    /// Switches the four dots, left to right (true is on).
    pub fn display_dots(&self, dots: [bool; 4]) -> (t: Transaction)
        ensures
            self.planned(t, seq![dots_frame(dots@)]),
    {
        Transaction::new(self.dev_addr, single(dots_frame_vec(dots)))
    }

    /// Sends a digit, 0 to 9, to the display without a position.
    pub fn send_digit<E>(&self, number: u8) -> (r: Result<Transaction, Error<E>>)
        ensures
            number > 9 ==> r matches Err(Error::InvalidInputData),
            number <= 9 ==> (r matches Ok(t) && self.planned(t, seq![seq![number]])),
    {
        if number > 9 {
            Err(Error::InvalidInputData)
        } else {
            let frame = vec![number];
            assert(frame@ =~= seq![number]);
            Ok(Transaction::new(self.dev_addr, single(frame)))
        }
    }

    /// Writes a digit, 0 to 9, at a position, 0 to 3.
    pub fn display_digit<E>(&self, position: u8, digit: u8) -> (r: Result<Transaction, Error<E>>)
        ensures
            (position > 3 || digit > 9) ==> r matches Err(Error::InvalidInputData),
            (position <= 3 && digit <= 9) ==> (r matches Ok(t) && self.planned(
                t,
                seq![position_frame(position as int, digit)],
            )),
    {
        if position > 3 || digit > 9 {
            Err(Error::InvalidInputData)
        } else {
            Ok(Transaction::new(self.dev_addr, single(position_frame_vec(position, digit))))
        }
    }

    /// Shows a number, 0 to 9999, on all four positions, with leading zeros.
    pub fn display_number<E>(&self, number: u16) -> (r: Result<Transaction, Error<E>>)
        ensures
            number > 9999 ==> r matches Err(Error::InvalidInputData),
            number <= 9999 ==> (r matches Ok(t) && self.planned(t, number_frames(number as int))),
    {
        if number > 9999 {
            return Err(Error::InvalidInputData);
        }
        Ok(Transaction::new(self.dev_addr, number_frames_vec(number)))
    }

    /// Sends a character to the display without a position.
    pub fn send_char(&self, ch: char) -> (t: Transaction)
        ensures
            self.planned(t, seq![seq![char_code(ch)]]),
    {
        let frame = vec![#[verifier::truncate] (ch as u8)];
        assert(frame@ =~= seq![char_code(ch)]);
        Transaction::new(self.dev_addr, single(frame))
    }

    /// Writes a character at a position, 0 to 3.
    pub fn display_char<E>(&self, position: u8, ch: char) -> (r: Result<Transaction, Error<E>>)
        ensures
            position > 3 ==> r matches Err(Error::InvalidInputData),
            position <= 3 ==> (r matches Ok(t) && self.planned(
                t,
                seq![position_frame(position as int, char_code(ch))],
            )),
    {
        if position > 3 {
            Err(Error::InvalidInputData)
        } else {
            let code: u8 = #[verifier::truncate] (ch as u8);
            Ok(Transaction::new(self.dev_addr, single(position_frame_vec(position, code))))
        }
    }

    /// Sends each character of `text` in order, without positions.
    pub fn send_text(&self, text: &str) -> (t: Transaction)
        ensures
            self.planned(t, text_frames(text@)),
    {
        let n = text.unicode_len();
        let mut frames: Vec<Vec<u8>> = Vec::new();
        let mut idx: usize = 0;
        while idx < n
            invariant
                n == text@.len(),
                idx <= n,
                frames_view(frames@) =~= text_frames(text@).take(idx as int),
            decreases n - idx,
        {
            let ch = text.get_char(idx);
            let frame = vec![#[verifier::truncate] (ch as u8)];
            assert(frame@ =~= seq![char_code(ch)]);
            let ghost before = frames_view(frames@);
            frames.push(frame);
            assert(frames_view(frames@) =~= before.push(seq![char_code(ch)]));
            idx = idx + 1;
            assert(text_frames(text@).take(idx as int) =~= text_frames(text@).take(idx - 1).push(
                seq![char_code(ch)],
            ));
        }
        assert(text_frames(text@).take(n as int) =~= text_frames(text@));
        Transaction::new(self.dev_addr, frames)
    }

    /// Shows a time as HHMM, hours 0 to 23 and minutes 0 to 59, with the second dot on when
    /// `dot` is set and all dots off otherwise.
    pub fn display_time<E>(&self, hours: u8, minutes: u8, dot: bool) -> (r: Result<
        Transaction,
        Error<E>,
    >)
        ensures
            (hours > 23 || minutes > 59) ==> r matches Err(Error::InvalidInputData),
            (hours <= 23 && minutes <= 59) ==> (r matches Ok(t) && self.planned(
                t,
                number_frames(time_value(hours as int, minutes as int)).push(
                    dots_frame(center_dots(dot)),
                ),
            )),
    {
        if hours > 23 || minutes > 59 {
            return Err(Error::InvalidInputData);
        }
        let value: u16 = (hours as u16) * 100 + minutes as u16;
        let mut frames = number_frames_vec(value);
        frames.push(dots_frame_vec([false, dot, false, false]));
        proof {
            let dots: [bool; 4] = [false, dot, false, false];
            assert(dots@ =~= center_dots(dot));
        }
        assert(frames_view(frames@) =~= number_frames(time_value(hours as int, minutes as int)).push(
            dots_frame(center_dots(dot)),
        ));
        Ok(Transaction::new(self.dev_addr, frames))
    }

    /// Shows a date as MMDD or DDMM, with the second dot on when `dot` is set and all dots
    /// off otherwise. The day is checked against the month's length, February always
    /// allowing 29.
    pub fn display_date<E>(&self, month: u8, day: u8, format: DateFormat, dot: bool) -> (r: Result<
        Transaction,
        Error<E>,
    >)
        ensures
            !is_valid_date(month as int, day as int) ==> r matches Err(Error::InvalidInputData),
            is_valid_date(month as int, day as int) ==> (r matches Ok(t) && self.planned(
                t,
                number_frames(date_value(month as int, day as int, format)).push(
                    dots_frame(center_dots(dot)),
                ),
            )),
    {
        if !date_is_valid(month, day) {
            return Err(Error::InvalidInputData);
        }
        let date_number: u16 = match format {
            DateFormat::DDMM => day as u16 * 100 + month as u16,
            DateFormat::MMDD => month as u16 * 100 + day as u16,
        };
        let mut frames = number_frames_vec(date_number);
        frames.push(dots_frame_vec([false, dot, false, false]));
        proof {
            let dots: [bool; 4] = [false, dot, false, false];
            assert(dots@ =~= center_dots(dot));
        }
        assert(frames_view(frames@) =~= number_frames(date_value(month as int, day as int, format)).push(
            dots_frame(center_dots(dot)),
        ));
        Ok(Transaction::new(self.dev_addr, frames))
    }

    /// Selects scroll or rotate mode.
    pub fn set_mode(&self, mode: Mode) -> (t: Transaction)
        ensures
            self.planned(t, seq![seq![MODE_SETTING, mode_byte(mode)]]),
    {
        let byte: u8 = match mode {
            Mode::Rotate => 0,
            Mode::Scroll => 1,
        };
        let frame = vec![MODE_SETTING, byte];
        assert(frame@ =~= seq![MODE_SETTING, mode_byte(mode)]);
        Transaction::new(self.dev_addr, single(frame))
    }

    /// Shows a reading with its unit across the four positions, or `----`, `-LL-`, `-HH-`
    /// (see `reading_cells`).
    fn display_data(
        &self,
        data: i16,
        unit: u8,
        lo_thresh: Option<i16>,
        hi_thresh: Option<i16>,
        min_val: i16,
        max_val: i16,
    ) -> (t: Transaction)
        requires
            (data >= min_val && data <= max_val && low_threshold(lo_thresh, min_val as int) <= data
                <= high_threshold(hi_thresh, max_val as int)) ==> -999 <= data <= 999,
        ensures
            self.planned(
                t,
                cells_frames(
                    reading_cells(
                        data as int,
                        unit,
                        lo_thresh,
                        hi_thresh,
                        min_val as int,
                        max_val as int,
                    ),
                ),
            ),
    {
        let cells = reading_to_cells(data, unit, lo_thresh, hi_thresh, min_val, max_val);
        Transaction::new(self.dev_addr, cells_frames_vec(cells))
    }

    /// Shows a temperature in [-99, 999] with its unit, `-LL-` below the lower threshold,
    /// `-HH-` above the upper one, and `----` outside [-99, 999]. The thresholds default to
    /// -99 and 999.
    pub fn display_temperature(
        &self,
        temperature: i16,
        unit: TempUnits,
        lo_thresh: Option<i16>,
        hi_thresh: Option<i16>,
    ) -> (t: Transaction)
        ensures
            self.planned(
                t,
                cells_frames(
                    reading_cells(temperature as int, unit_code(unit), lo_thresh, hi_thresh, -99, 999),
                ),
            ),
    {
        let temp_unit: u8 = match unit {
            TempUnits::Celsius => CELSIUS_UNIT,
            TempUnits::Fahrenheit => FAHRENHEIT_UNIT,
        };
        self.display_data(temperature, temp_unit, lo_thresh, hi_thresh, -99, 999)
    }

    /// Shows a relative humidity in [0, 100] followed by H, `-LL-` below the lower threshold,
    /// `-HH-` above the upper one, and `----` outside [0, 100]. The thresholds default to 0
    /// and 100.
    pub fn display_humidity(&self, humidity: i16, lo_thresh: Option<i16>, hi_thresh: Option<i16>) -> (t:
        Transaction)
        ensures
            self.planned(
                t,
                cells_frames(reading_cells(humidity as int, HUMIDITY_UNIT, lo_thresh, hi_thresh, 0, 100)),
            ),
    {
        self.display_data(humidity, HUMIDITY_UNIT, lo_thresh, hi_thresh, 0, 100)
    }
}

} // verus!
