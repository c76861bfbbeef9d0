//! The saved-patient counter and the text that shows it.

use vstd::prelude::*;

use crate::patient::PatientHealedEvent;

verus! {

/// The character of a decimal digit.
pub open spec fn digit_char(d: int) -> char {
    seq!['0', '1', '2', '3', '4', '5', '6', '7', '8', '9'][d]
}

/// The decimal numeral of `n`, without leading zeros.
pub open spec fn decimal(n: nat) -> Seq<char>
    decreases n,
{
    if n < 10 {
        seq![digit_char(n as int)]
    } else {
        decimal(n / 10).push(digit_char((n % 10) as int))
    }
}

/// The score line for `saved` patients.
pub open spec fn score_text(saved: nat) -> Seq<char> {
    "Patients saved: "@ + decimal(saved)
}

/// Appends the decimal numeral of `n`.
fn append_decimal(s: &mut String, n: u64)
    ensures
        final(s)@ == old(s)@ + decimal(n as nat),
    decreases n,
{
    if n >= 10 {
        append_decimal(s, n / 10);
    }
    let d = n % 10;
    let digit: &str = if d == 0 {
        "0"
    } else if d == 1 {
        "1"
    } else if d == 2 {
        "2"
    } else if d == 3 {
        "3"
    } else if d == 4 {
        "4"
    } else if d == 5 {
        "5"
    } else if d == 6 {
        "6"
    } else if d == 7 {
        "7"
    } else if d == 8 {
        "8"
    } else {
        "9"
    };
    proof {
        reveal_strlit("0");
        reveal_strlit("1");
        reveal_strlit("2");
        reveal_strlit("3");
        reveal_strlit("4");
        reveal_strlit("5");
        reveal_strlit("6");
        reveal_strlit("7");
        reveal_strlit("8");
        reveal_strlit("9");
        assert(digit@ =~= seq![digit_char(d as int)]);
    }
    let ghost before = s@;
    s.append(digit);
    assert(before + digit@ =~= old(s)@ + decimal(n as nat));
}

/// The count after `healed` more patients were saved.
pub open spec fn saved_after(saved: nat, healed: nat) -> nat {
    saved + healed
}

/// Counts the patients saved in a play session.
#[derive(Clone, Copy, Debug, PartialEq, Eq, Structural)]
pub struct PatientTracker {
    pub saved: u64,
}

impl PatientTracker {
    /// A session with no patient saved yet.
    pub fn new() -> (r: PatientTracker)
        ensures
            r.saved == 0,
    {
        PatientTracker { saved: 0 }
    }

    /// The score line, `Patients saved: <count>`.
    pub fn text(&self) -> (r: String)
        ensures
            r@ == score_text(self.saved as nat),
    {
        let mut s = String::from_str("Patients saved: ");
        append_decimal(&mut s, self.saved);
        s
    }

    /// Counts a frame's healed events, one each. Returns the new score line
    /// when the count changed, nothing otherwise.
    pub fn record(&mut self, events: &Vec<PatientHealedEvent>) -> (r: Option<String>)
        requires
            old(self).saved + events@.len() <= u64::MAX,
        ensures
            final(self).saved == saved_after(old(self).saved as nat, events@.len()),
            r is None <==> events@.len() == 0,
            r matches Some(s) ==> s@ == score_text(final(self).saved as nat),
    {
        let n = events.len();
        self.saved = self.saved + n as u64;
        if n > 0 {
            Some(self.text())
        } else {
            None
        }
    }
}

} // verus!
