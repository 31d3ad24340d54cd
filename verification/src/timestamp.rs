//! Points in time, and their ISO-8601 form.

use vstd::prelude::*;

verus! {

/// A point in time in UTC, to the nanosecond, between the years 0 and 9999:
/// a date of the Gregorian calendar and a time of day.
#[derive(Clone, Copy, Debug, PartialEq, Eq, PartialOrd, Ord, Hash)]
pub struct Timestamp {
    year: u16,
    month: u8,
    day: u8,
    hour: u8,
    minute: u8,
    second: u8,
    nanos: u32,
}

/// Mathematical content of a [`Timestamp`].
pub struct TimestampView {
    pub year: u16,
    pub month: u8,
    pub day: u8,
    pub hour: u8,
    pub minute: u8,
    pub second: u8,
    pub nanos: u32,
}

/// Whether a year has a 29th of February.
pub open spec fn is_leap_year(year: int) -> bool {
    year % 4 == 0 && (year % 100 != 0 || year % 400 == 0)
}

/// The number of days of a month.
pub open spec fn days_in_month(year: int, month: int) -> int {
    if month == 2 {
        if is_leap_year(year) {
            29
        } else {
            28
        }
    } else if month == 4 || month == 6 || month == 9 || month == 11 {
        30
    } else {
        31
    }
}

impl TimestampView {
    /// Whether this is a date of the calendar and a time of day.
    pub open spec fn valid(self) -> bool {
        &&& self.year <= 9999
        &&& 1 <= self.month <= 12
        &&& 1 <= self.day <= days_in_month(self.year as int, self.month as int)
        &&& self.hour <= 23
        &&& self.minute <= 59
        &&& self.second <= 59
        &&& self.nanos <= 999_999_999
    }
}

/// What a clock says: the parts of a date and a time of day.
#[derive(Clone, Copy, Debug, PartialEq, Eq)]
pub struct ClockReading {
    pub year: i32,
    pub month: u32,
    pub day: u32,
    pub hour: u32,
    pub minute: u32,
    pub second: u32,
    pub nanos: u32,
}

impl ClockReading {
    /// Whether the reading is a point in time that a [`Timestamp`] can
    /// hold.
    pub open spec fn in_range(self) -> bool {
        &&& 0 <= self.year <= 9999
        &&& 1 <= self.month <= 12
        &&& 1 <= self.day <= days_in_month(self.year as int, self.month as int)
        &&& self.hour <= 23
        &&& self.minute <= 59
        &&& self.second <= 59
        &&& self.nanos <= 999_999_999
    }

    /// The reading as the content of a timestamp.
    pub open spec fn parts(self) -> TimestampView {
        TimestampView {
            year: self.year as u16,
            month: self.month as u8,
            day: self.day as u8,
            hour: self.hour as u8,
            minute: self.minute as u8,
            second: self.second as u8,
            nanos: self.nanos,
        }
    }
}

/// The first instant of 1970.
pub open spec fn epoch() -> TimestampView {
    TimestampView { year: 1970, month: 1, day: 1, hour: 0, minute: 0, second: 0, nanos: 0 }
}

impl View for Timestamp {
    type V = TimestampView;

    closed spec fn view(&self) -> TimestampView {
        TimestampView {
            year: self.year,
            month: self.month,
            day: self.day,
            hour: self.hour,
            minute: self.minute,
            second: self.second,
            nanos: self.nanos,
        }
    }
}

/// Ten to the power of `width`.
pub open spec fn pow10(width: nat) -> nat
    decreases width,
{
    if width == 0 {
        1
    } else {
        10 * pow10((width - 1) as nat)
    }
}

/// Whether a byte is an ASCII digit.
pub open spec fn is_digit(byte: u8) -> bool {
    48 <= byte <= 57
}

/// Whether every byte is an ASCII digit.
pub open spec fn is_digits(text: Seq<u8>) -> bool {
    forall|i: int| 0 <= i < text.len() ==> is_digit(#[trigger] text[i])
}

/// The last `width` decimal digits of a number, in ASCII, with leading
/// zeros.
pub open spec fn decimal(number: nat, width: nat) -> Seq<u8>
    decreases width,
{
    if width == 0 {
        Seq::empty()
    } else {
        decimal(number / 10, (width - 1) as nat).push((48 + number % 10) as u8)
    }
}

/// The number that ASCII digits stand for.
pub open spec fn number(text: Seq<u8>) -> nat
    decreases text.len(),
{
    if text.len() == 0 {
        0
    } else {
        number(text.drop_last()) * 10 + (text.last() - 48) as nat
    }
}

/// The ISO-8601 form of a point in time in UTC, with nanoseconds:
/// `YYYY-MM-DDTHH:MM:SS.NNNNNNNNNZ`, thirty ASCII characters.
pub open spec fn iso_text(t: TimestampView) -> Seq<u8> {
    decimal(t.year as nat, 4) + seq![45u8] + decimal(t.month as nat, 2) + seq![45u8] + decimal(
        t.day as nat,
        2,
    ) + seq![84u8] + decimal(t.hour as nat, 2) + seq![58u8] + decimal(t.minute as nat, 2)
        + seq![58u8] + decimal(t.second as nat, 2) + seq![46u8] + decimal(t.nanos as nat, 9)
        + seq![90u8]
}

spec fn part(text: Seq<u8>, from: int, width: int) -> Seq<u8> {
    text.subrange(from, from + width)
}

spec fn has_time_shape(text: Seq<u8>) -> bool {
    &&& text.len() == 30
    &&& text[4] == 45
    &&& text[7] == 45
    &&& text[10] == 84
    &&& text[13] == 58
    &&& text[16] == 58
    &&& text[19] == 46
    &&& text[29] == 90
    &&& is_digits(part(text, 0, 4))
    &&& is_digits(part(text, 5, 2))
    &&& is_digits(part(text, 8, 2))
    &&& is_digits(part(text, 11, 2))
    &&& is_digits(part(text, 14, 2))
    &&& is_digits(part(text, 17, 2))
    &&& is_digits(part(text, 20, 9))
}

spec fn shaped_time(text: Seq<u8>) -> TimestampView {
    TimestampView {
        year: number(part(text, 0, 4)) as u16,
        month: number(part(text, 5, 2)) as u8,
        day: number(part(text, 8, 2)) as u8,
        hour: number(part(text, 11, 2)) as u8,
        minute: number(part(text, 14, 2)) as u8,
        second: number(part(text, 17, 2)) as u8,
        nanos: number(part(text, 20, 9)) as u32,
    }
}

/// The point in time that a text stands for, if it stands for one.
///
/// [`law_time_reads_back`] and [`law_only_iso_text_is_read`] say which:
/// `parsed_time` undoes `iso_text`, and gives nothing for any other text.
pub closed spec fn parsed_time(text: Seq<u8>) -> Option<TimestampView> {
    if has_time_shape(text) && shaped_time(text).valid() {
        Some(shaped_time(text))
    } else {
        None
    }
}

proof fn lemma_decimal_shape(n: nat, width: nat)
    ensures
        decimal(n, width).len() == width,
        is_digits(decimal(n, width)),
    decreases width,
{
    if width > 0 {
        lemma_decimal_shape(n / 10, (width - 1) as nat);
    }
}

proof fn lemma_number_of_decimal(n: nat, width: nat)
    requires
        n < pow10(width),
    ensures
        number(decimal(n, width)) == n,
    decreases width,
{
    if width > 0 {
        let before = decimal(n / 10, (width - 1) as nat);
        lemma_number_of_decimal(n / 10, (width - 1) as nat);
        assert(decimal(n, width).drop_last() =~= before);
    }
}

proof fn lemma_decimal_of_number(text: Seq<u8>)
    requires
        is_digits(text),
    ensures
        number(text) < pow10(text.len()),
        decimal(number(text), text.len()) == text,
    decreases text.len(),
{
    if text.len() > 0 {
        let before = text.drop_last();
        assert(is_digits(before));
        assert(is_digit(text.last()));
        lemma_decimal_of_number(before);
        assert(decimal(number(text), text.len()) =~= text);
    }
}

proof fn lemma_pow10()
    ensures
        pow10(2) == 100,
        pow10(4) == 10_000,
        pow10(9) == 1_000_000_000,
{
    reveal_with_fuel(pow10, 10);
}

proof fn lemma_field(text: Seq<u8>, from: int, n: nat, width: nat)
    requires
        0 <= from,
        from + width <= text.len(),
        part(text, from, width as int) == decimal(n, width),
        n < pow10(width),
    ensures
        is_digits(part(text, from, width as int)),
        number(part(text, from, width as int)) == n,
{
    lemma_decimal_shape(n, width);
    lemma_number_of_decimal(n, width);
}

/// Reading the ISO-8601 form of a point in time gives that point in time.
pub proof fn law_time_reads_back(t: TimestampView)
    requires
        t.valid(),
    ensures
        iso_text(t).len() == 30,
        parsed_time(iso_text(t)) == Some(t),
{
    let text = iso_text(t);
    lemma_pow10();
    lemma_decimal_shape(t.year as nat, 4);
    lemma_decimal_shape(t.month as nat, 2);
    lemma_decimal_shape(t.day as nat, 2);
    lemma_decimal_shape(t.hour as nat, 2);
    lemma_decimal_shape(t.minute as nat, 2);
    lemma_decimal_shape(t.second as nat, 2);
    lemma_decimal_shape(t.nanos as nat, 9);
    assert(text.len() == 30);
    assert(part(text, 0, 4) =~= decimal(t.year as nat, 4));
    assert(part(text, 5, 2) =~= decimal(t.month as nat, 2));
    assert(part(text, 8, 2) =~= decimal(t.day as nat, 2));
    assert(part(text, 11, 2) =~= decimal(t.hour as nat, 2));
    assert(part(text, 14, 2) =~= decimal(t.minute as nat, 2));
    assert(part(text, 17, 2) =~= decimal(t.second as nat, 2));
    assert(part(text, 20, 9) =~= decimal(t.nanos as nat, 9));
    lemma_field(text, 0, t.year as nat, 4);
    lemma_field(text, 5, t.month as nat, 2);
    lemma_field(text, 8, t.day as nat, 2);
    lemma_field(text, 11, t.hour as nat, 2);
    lemma_field(text, 14, t.minute as nat, 2);
    lemma_field(text, 17, t.second as nat, 2);
    lemma_field(text, 20, t.nanos as nat, 9);
    assert(shaped_time(text) == t);
}

/// A text is read as a point in time only if it is the ISO-8601 form of
/// that point in time.
pub proof fn law_only_iso_text_is_read(text: Seq<u8>)
    requires
        parsed_time(text) is Some,
    ensures
        iso_text(parsed_time(text).unwrap()) == text,
        parsed_time(text).unwrap().valid(),
{
    let t = parsed_time(text).unwrap();
    lemma_pow10();
    lemma_decimal_of_number(part(text, 0, 4));
    lemma_decimal_of_number(part(text, 5, 2));
    lemma_decimal_of_number(part(text, 8, 2));
    lemma_decimal_of_number(part(text, 11, 2));
    lemma_decimal_of_number(part(text, 14, 2));
    lemma_decimal_of_number(part(text, 17, 2));
    lemma_decimal_of_number(part(text, 20, 9));
    assert(iso_text(t) =~= text);
}

/// Two points in time with the same ISO-8601 form are the same.
pub proof fn law_iso_text_tells_times_apart(a: TimestampView, b: TimestampView)
    requires
        a.valid(),
        b.valid(),
        iso_text(a) == iso_text(b),
    ensures
        a == b,
{
    law_time_reads_back(a);
    law_time_reads_back(b);
}

fn put_decimal(out: &mut Vec<u8>, n: u32, width: usize)
    ensures
        final(out)@ == old(out)@ + decimal(n as nat, width as nat),
    decreases width,
{
    if width > 0 {
        put_decimal(out, n / 10, width - 1);
        out.push(48 + (n % 10) as u8);
        assert(out@ =~= old(out)@ + decimal(n as nat, width as nat));
    } else {
        assert(out@ =~= old(out)@ + decimal(n as nat, width as nat));
    }
}

fn take_number(text: &[u8], from: usize, width: usize) -> (taken: Option<u32>)
    requires
        from + width <= text@.len(),
        width <= 9,
    ensures
        match taken {
            Some(n) => is_digits(part(text@, from as int, width as int)) && n == number(
                part(text@, from as int, width as int),
            ),
            None => !is_digits(part(text@, from as int, width as int)),
        },
{
    let mut n: u32 = 0;
    let mut i: usize = 0;
    let len: usize = text.len();
    proof {
        reveal_with_fuel(pow10, 10);
    }
    while i < width
        invariant
            i <= width <= 9,
            from + width <= len == text@.len(),
            is_digits(part(text@, from as int, i as int)),
            n == number(part(text@, from as int, i as int)),
            n < pow10(i as nat),
            pow10(i as nat) <= 100_000_000 || i == width,
        decreases width - i,
    {
        let byte = text[from + i];
        if byte < 48 || byte > 57 {
            assert(part(text@, from as int, width as int)[i as int] == byte);
            return None;
        }
        proof {
            let longer = part(text@, from as int, i + 1);
            assert(longer.drop_last() =~= part(text@, from as int, i as int));
            assert(longer.last() == byte);
            reveal_with_fuel(pow10, 10);
        }
        n = n * 10 + (byte - 48) as u32;
        i = i + 1;
    }
    Some(n)
}

fn last_day(year: u32, month: u32) -> (day: u32)
    ensures
        day == days_in_month(year as int, month as int),
{
    if month == 2 {
        if year % 4 == 0 && (year % 100 != 0 || year % 400 == 0) {
            29
        } else {
            28
        }
    } else if month == 4 || month == 6 || month == 9 || month == 11 {
        30
    } else {
        31
    }
}

impl Timestamp {
    #[verifier::type_invariant]
    spec fn inv(self) -> bool {
        self@.valid()
    }

    /// The point in time with the given parts, if they name one: a year up
    /// to 9999, a month from 1 to 12, a day that the month has, an hour up
    /// to 23, a minute and a second up to 59, and less than a second of
    /// nanoseconds.
    pub fn from_parts(
        year: u16,
        month: u8,
        day: u8,
        hour: u8,
        minute: u8,
        second: u8,
        nanos: u32,
    ) -> (made: Option<Self>)
        ensures
            made is Some <==> (TimestampView {
                year,
                month,
                day,
                hour,
                minute,
                second,
                nanos,
            }).valid(),
            made matches Some(t) ==> t@ == (TimestampView {
                year,
                month,
                day,
                hour,
                minute,
                second,
                nanos,
            }),
    {
        if year <= 9999 && 1 <= month && month <= 12 && 1 <= day && day as u32 <= last_day(
            year as u32,
            month as u32,
        ) && hour <= 23 && minute <= 59 && second <= 59 && nanos <= 999_999_999 {
            Some(Timestamp { year, month, day, hour, minute, second, nanos })
        } else {
            None
        }
    }

    /// The first instant of 1970.
    pub fn unix_epoch() -> (t: Self)
        ensures
            t@ == epoch(),
    {
        Timestamp { year: 1970, month: 1, day: 1, hour: 0, minute: 0, second: 0, nanos: 0 }
    }

    /// The point in time that a clock reading names; and the first instant
    /// of 1970 for a reading that names none which a timestamp can hold.
    pub fn from_reading(reading: ClockReading) -> (t: Self)
        ensures
            t@ == if reading.in_range() {
                reading.parts()
            } else {
                epoch()
            },
    {
        if 0 <= reading.year && reading.year <= 9999 && 1 <= reading.month && reading.month <= 12
            && 1 <= reading.day && reading.day <= last_day(reading.year as u32, reading.month)
            && reading.hour <= 23 && reading.minute <= 59 && reading.second <= 59
            && reading.nanos <= 999_999_999 {
            Timestamp {
                year: reading.year as u16,
                month: reading.month as u8,
                day: reading.day as u8,
                hour: reading.hour as u8,
                minute: reading.minute as u8,
                second: reading.second as u8,
                nanos: reading.nanos,
            }
        } else {
            Timestamp::unix_epoch()
        }
    }

    /// The parts of this point in time, each in its range.
    pub fn parts(&self) -> (reading: ClockReading)
        ensures
            reading.in_range(),
            reading.parts() == self@,
            self@.valid(),
    {
        proof {
            use_type_invariant(self);
        }
        ClockReading {
            year: self.year as i32,
            month: self.month as u32,
            day: self.day as u32,
            hour: self.hour as u32,
            minute: self.minute as u32,
            second: self.second as u32,
            nanos: self.nanos,
        }
    }

    /// The ISO-8601 form of this point in time.
    pub fn to_iso8601(&self) -> (text: Vec<u8>)
        ensures
            text@ == iso_text(self@),
            self@.valid(),
            parsed_time(text@) == Some(self@),
    {
        proof {
            use_type_invariant(self);
            law_time_reads_back(self@);
        }
        let mut out: Vec<u8> = Vec::new();
        put_decimal(&mut out, self.year as u32, 4);
        out.push(45);
        put_decimal(&mut out, self.month as u32, 2);
        out.push(45);
        put_decimal(&mut out, self.day as u32, 2);
        out.push(84);
        put_decimal(&mut out, self.hour as u32, 2);
        out.push(58);
        put_decimal(&mut out, self.minute as u32, 2);
        out.push(58);
        put_decimal(&mut out, self.second as u32, 2);
        out.push(46);
        put_decimal(&mut out, self.nanos, 9);
        out.push(90);
        assert(out@ =~= iso_text(self@));
        out
    }

    /// Reads a point in time from its ISO-8601 form.
    ///
    /// The result is `Some` exactly when `text` is the ISO-8601 form of a
    /// point in time, and then it is that point in time.
    pub fn from_iso8601(text: &[u8]) -> (read: Option<Self>)
        ensures
            match read {
                Some(t) => parsed_time(text@) == Some(t@) && iso_text(t@) == text@,
                None => parsed_time(text@) is None,
            },
    {
        proof {
            if parsed_time(text@) is Some {
                law_only_iso_text_is_read(text@);
            }
            lemma_pow10();
        }
        if text.len() != 30 || text[4] != 45 || text[7] != 45 || text[10] != 84 || text[13] != 58
            || text[16] != 58 || text[19] != 46 || text[29] != 90 {
            return None;
        }
        let year = match take_number(text, 0, 4) {
            Some(n) => n,
            None => { return None; },
        };
        let month = match take_number(text, 5, 2) {
            Some(n) => n,
            None => { return None; },
        };
        let day = match take_number(text, 8, 2) {
            Some(n) => n,
            None => { return None; },
        };
        let hour = match take_number(text, 11, 2) {
            Some(n) => n,
            None => { return None; },
        };
        let minute = match take_number(text, 14, 2) {
            Some(n) => n,
            None => { return None; },
        };
        let second = match take_number(text, 17, 2) {
            Some(n) => n,
            None => { return None; },
        };
        let nanos = match take_number(text, 20, 9) {
            Some(n) => n,
            None => { return None; },
        };
        proof {
            lemma_decimal_of_number(part(text@, 0, 4));
            lemma_decimal_of_number(part(text@, 5, 2));
            lemma_decimal_of_number(part(text@, 8, 2));
            lemma_decimal_of_number(part(text@, 11, 2));
            lemma_decimal_of_number(part(text@, 14, 2));
            lemma_decimal_of_number(part(text@, 17, 2));
            lemma_decimal_of_number(part(text@, 20, 9));
        }
        Timestamp::from_parts(
            year as u16,
            month as u8,
            day as u8,
            hour as u8,
            minute as u8,
            second as u8,
            nanos,
        )
    }
}

} // verus!
