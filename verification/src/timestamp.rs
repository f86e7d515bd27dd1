//! A wall-clock timestamp at second resolution, held as plain calendar
//! fields, and its rendering in the fixed `YYYY-MM-DD HH:MM:SS UTC` form
//! that every persisted log entry carries.

use vstd::prelude::*;
use vstd::string::*;

verus! {

/// A UTC wall-clock reading at second resolution.
#[derive(Clone, Copy, Debug, PartialEq, Eq, Structural)]
pub struct Timestamp {
    pub year: u16,
    pub month: u8,
    pub day: u8,
    pub hour: u8,
    pub minute: u8,
    pub second: u8,
}

impl Timestamp {
    /// A timestamp is well formed when every field lies in its calendar
    /// range and the year fits the four-digit rendering.
    pub open spec fn wf(self) -> bool {
        &&& self.year <= 9999
        &&& 1 <= self.month <= 12
        &&& 1 <= self.day <= 31
        &&& self.hour <= 23
        &&& self.minute <= 59
        &&& self.second <= 59
    }

    /// The rendered form `YYYY-MM-DD HH:MM:SS UTC`, one character per slot.
    pub open spec fn spec_render(self) -> Seq<char> {
        seq![
            digit((self.year as int) / 1000),
            digit(((self.year as int) / 100) % 10),
            digit(((self.year as int) / 10) % 10),
            digit((self.year as int) % 10),
            '-',
            digit((self.month as int) / 10),
            digit((self.month as int) % 10),
            '-',
            digit((self.day as int) / 10),
            digit((self.day as int) % 10),
            ' ',
            digit((self.hour as int) / 10),
            digit((self.hour as int) % 10),
            ':',
            digit((self.minute as int) / 10),
            digit((self.minute as int) % 10),
            ':',
            digit((self.second as int) / 10),
            digit((self.second as int) % 10),
            ' ',
            'U',
            'T',
            'C',
        ]
    }

    /// Builds a timestamp from raw calendar parts, accepting exactly the
    /// well-formed combinations.
    pub fn from_parts(year: i32, month: u32, day: u32, hour: u32, minute: u32, second: u32) -> (r:
        Option<Timestamp>)
        ensures
            r is Some <==> {
                &&& 0 <= year <= 9999
                &&& 1 <= month <= 12
                &&& 1 <= day <= 31
                &&& hour <= 23
                &&& minute <= 59
                &&& second <= 59
            },
            r matches Some(t) ==> {
                &&& t.wf()
                &&& t.year == year
                &&& t.month == month
                &&& t.day == day
                &&& t.hour == hour
                &&& t.minute == minute
                &&& t.second == second
            },
    {
        if 0 <= year && year <= 9999 && 1 <= month && month <= 12 && 1 <= day && day <= 31 && hour
            <= 23 && minute <= 59 && second <= 59 {
            Some(
                Timestamp {
                    year: year as u16,
                    month: month as u8,
                    day: day as u8,
                    hour: hour as u8,
                    minute: minute as u8,
                    second: second as u8,
                },
            )
        } else {
            None
        }
    }

    /// Renders the timestamp as `YYYY-MM-DD HH:MM:SS UTC`.
    pub fn render(&self) -> (r: String)
        requires
            self.wf(),
        ensures
            r@ == self.spec_render(),
    {
        let mut s = String::new();
        push_two_digits(&mut s, (self.year / 100) as u8);
        push_two_digits(&mut s, (self.year % 100) as u8);
        append_lit(&mut s, "-");
        push_two_digits(&mut s, self.month);
        append_lit(&mut s, "-");
        push_two_digits(&mut s, self.day);
        append_lit(&mut s, " ");
        push_two_digits(&mut s, self.hour);
        append_lit(&mut s, ":");
        push_two_digits(&mut s, self.minute);
        append_lit(&mut s, ":");
        push_two_digits(&mut s, self.second);
        append_lit(&mut s, " UTC");
        proof {
            reveal_strlit("-");
            reveal_strlit(" ");
            reveal_strlit(":");
            reveal_strlit(" UTC");
            assert((self.year as int) / 100 / 10 == (self.year as int) / 1000);
            assert((self.year as int) % 100 / 10 == (self.year as int) / 10 % 10);
            assert((self.year as int) % 100 % 10 == (self.year as int) % 10);
            assert(s@ =~= self.spec_render());
        }
        s
    }
}

/// The decimal digit character for a value between 0 and 9.
pub open spec fn digit(d: int) -> char {
    if d == 0 {
        '0'
    } else if d == 1 {
        '1'
    } else if d == 2 {
        '2'
    } else if d == 3 {
        '3'
    } else if d == 4 {
        '4'
    } else if d == 5 {
        '5'
    } else if d == 6 {
        '6'
    } else if d == 7 {
        '7'
    } else if d == 8 {
        '8'
    } else if d == 9 {
        '9'
    } else {
        ' '
    }
}

/// Whether a character is a decimal digit.
pub open spec fn is_digit(c: char) -> bool {
    ||| c == '0'
    ||| c == '1'
    ||| c == '2'
    ||| c == '3'
    ||| c == '4'
    ||| c == '5'
    ||| c == '6'
    ||| c == '7'
    ||| c == '8'
    ||| c == '9'
}

/// Law: the rendered timestamp always has the fixed shape
/// `YYYY-MM-DD HH:MM:SS UTC`: 23 characters, decimal digits in every date
/// and time slot, the fixed separators elsewhere, and no newline anywhere.
pub proof fn lemma_render_shape(ts: Timestamp)
    requires
        ts.wf(),
    ensures
        ts.spec_render().len() == 23,
        forall|i: int|
            #![auto]
            (0 <= i < 23 && i != 4 && i != 7 && i != 10 && i != 13 && i != 16 && i != 19 && i != 20
                && i != 21 && i != 22) ==> is_digit(ts.spec_render()[i]),
        ts.spec_render()[4] == '-',
        ts.spec_render()[7] == '-',
        ts.spec_render()[10] == ' ',
        ts.spec_render()[13] == ':',
        ts.spec_render()[16] == ':',
        ts.spec_render()[19] == ' ',
        ts.spec_render()[20] == 'U',
        ts.spec_render()[21] == 'T',
        ts.spec_render()[22] == 'C',
        forall|i: int| 0 <= i < 23 ==> #[trigger] ts.spec_render()[i] != '\n',
{
}

/// The one-character string for a digit value.
fn digit_str(d: u8) -> (r: &'static str)
    requires
        d <= 9,
    ensures
        r@ == seq![digit(d as int)],
{
    proof {
        reveal_strlit("0");
        reveal_strlit("1");
        reveal_strlit("2");
        reveal_strlit("3");
        reveal_strlit("4");
        reveal_strlit("5");
        reveal_strlit("6");
        reveal_strlit("7");
        reveal_strlit("8");
        reveal_strlit("9");
    }
    let r = match d {
        0 => "0",
        1 => "1",
        2 => "2",
        3 => "3",
        4 => "4",
        5 => "5",
        6 => "6",
        7 => "7",
        8 => "8",
        _ => "9",
    };
    proof {
        assert(r@ =~= seq![digit(d as int)]);
    }
    r
}

/// Appends the two-digit, zero-padded rendering of a value below 100.
fn push_two_digits(s: &mut String, n: u8)
    requires
        n <= 99,
    ensures
        final(s)@ == old(s)@ + seq![digit((n as int) / 10), digit((n as int) % 10)],
{
    s.append(digit_str(n / 10));
    s.append(digit_str(n % 10));
    proof {
        assert(s@ =~= old(s)@ + seq![digit((n as int) / 10), digit((n as int) % 10)]);
    }
}

/// Appends a string slice.
pub(crate) fn append_lit(s: &mut String, lit: &str)
    ensures
        final(s)@ == old(s)@ + lit@,
{
    s.append(lit);
}

} // verus!
