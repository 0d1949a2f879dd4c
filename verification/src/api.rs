//! Request and response shapes of the service's public endpoints, and the
//! clock rendering their responses are built from. The handlers that
//! fetch the third-party data are plain I/O around these values.

use vstd::prelude::*;

verus! {

/// Query parameters of the game-time endpoint.
#[derive(Clone, Debug)]
pub struct TimeReq {
    pub year: u16,
    pub week: u8,
    pub team: String,
    /// Hours east of UTC for the local rendering of each time.
    pub offset: i8,
}

/// Response of the game-time endpoint: each time of the game rendered as
/// a wall clock, both in UTC and shifted to the requested offset. A time
/// the upstream data did not provide stays empty.
#[derive(Clone, Debug)]
pub struct TimeResp {
    pub team: String,
    pub start: String,
    pub kickoff: String,
    pub end: String,
    pub start_trans: String,
    pub kickoff_trans: String,
    pub end_trans: String,
}

impl Default for TimeResp {
    /// A response with every field empty.
    fn default() -> (r: TimeResp)
        ensures
            r.team@ == Seq::<char>::empty(),
            r.start@ == Seq::<char>::empty(),
            r.kickoff@ == Seq::<char>::empty(),
            r.end@ == Seq::<char>::empty(),
            r.start_trans@ == Seq::<char>::empty(),
            r.kickoff_trans@ == Seq::<char>::empty(),
            r.end_trans@ == Seq::<char>::empty(),
    {
        TimeResp {
            team: String::new(),
            start: String::new(),
            kickoff: String::new(),
            end: String::new(),
            start_trans: String::new(),
            kickoff_trans: String::new(),
            end_trans: String::new(),
        }
    }
}

/// The digit character for a value below ten.
pub open spec fn spec_digit_char(d: int) -> char {
    if d == 0 {
        '0'
    } else if d == 1 {
        '1'
    } else if d == 2 {
        '2'
    } else if d == 3 {
        '3'
    } else if d == 4 {
        '4'
    } else if d == 5 {
        '5'
    } else if d == 6 {
        '6'
    } else if d == 7 {
        '7'
    } else if d == 8 {
        '8'
    } else {
        '9'
    }
}

/// A wall clock rendered as five characters: two zero-padded digits of
/// the hour, a colon, two zero-padded digits of the minute.
pub open spec fn spec_clock(hour: int, minute: int) -> Seq<char> {
    seq![
        spec_digit_char(hour / 10),
        spec_digit_char(hour % 10),
        ':',
        spec_digit_char(minute / 10),
        spec_digit_char(minute % 10),
    ]
}

/// The one-character string holding the digit for a value below ten.
fn digit_str(d: u8) -> (r: &'static str)
    requires
        d < 10,
    ensures
        r@ == seq![spec_digit_char(d as int)],
{
    proof {
        reveal_strlit("0");
        reveal_strlit("1");
        reveal_strlit("2");
        reveal_strlit("3");
        reveal_strlit("4");
        reveal_strlit("5");
        reveal_strlit("6");
        reveal_strlit("7");
        reveal_strlit("8");
        reveal_strlit("9");
    }
    let r: &'static str = match d {
        0 => "0",
        1 => "1",
        2 => "2",
        3 => "3",
        4 => "4",
        5 => "5",
        6 => "6",
        7 => "7",
        8 => "8",
        _ => "9",
    };
    proof {
        assert(r@ =~= seq![spec_digit_char(d as int)]);
    }
    r
}

/// Renders an hour and minute as the zero-padded wall clock `hh:mm`.
pub fn format_clock(hour: u8, minute: u8) -> (r: String)
    requires
        hour < 24,
        minute < 60,
    ensures
        r@ == spec_clock(hour as int, minute as int),
{
    proof {
        reveal_strlit(":");
    }
    let mut r = String::new();
    r.append(digit_str(hour / 10));
    r.append(digit_str(hour % 10));
    r.append(":");
    r.append(digit_str(minute / 10));
    r.append(digit_str(minute % 10));
    proof {
        assert(r@ =~= spec_clock(hour as int, minute as int));
    }
    r
}

} // verus!
