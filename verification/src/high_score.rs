//! The survival-time score: the current run's score accrues while the
//! player is alive, and the record tracks the best score seen this session.
//! Reading and writing the persisted record is the caller's business: the
//! stored value is handed in at construction and read back at session end.

use vstd::prelude::*;
use crate::T_MAX;

verus! {

/// Current score and session record, both in milliseconds of survival.
#[derive(Clone, Copy, PartialEq, Eq, Structural, Debug)]
pub struct HighScore {
    pub current_score: i64,
    pub record: i64,
}

impl HighScore {
    /// Scores are well-formed while non-negative and bounded by the largest
    /// admissible simulation time; the record is never behind the current
    /// score.
    pub open spec fn wf(self) -> bool {
        &&& 0 <= self.current_score <= T_MAX
        &&& self.current_score <= self.record <= T_MAX
    }

    /// A fresh score for a session whose persisted record is `record`.
    pub fn new(record: i64) -> (h: HighScore)
        requires
            0 <= record <= T_MAX,
        ensures
            h == (HighScore { current_score: 0, record: record }),
    {
        HighScore { current_score: 0, record: record }
    }

    /// Accrues one tick of survival time; the record follows the current
    /// score as soon as it is beaten.
    pub fn update(&mut self, t_step: i64)
        requires
            0 <= t_step,
            old(self).current_score + t_step <= T_MAX,
        ensures
            final(self).current_score == old(self).current_score + t_step,
            final(self).record == if old(self).current_score + t_step > old(self).record {
                old(self).current_score + t_step
            } else {
                old(self).record as int
            },
    {
        self.current_score = self.current_score + t_step;
        if self.current_score > self.record {
            self.record = self.current_score;
        }
    }

    /// Starts a new run: clears the current score and keeps the record.
    pub fn reset(&mut self)
        ensures
            *final(self) == (HighScore { current_score: 0, ..*old(self) }),
    {
        self.current_score = 0;
    }

    /// The current run's score, in milliseconds of survival.
    pub fn get_score_millis(&self) -> (s: i64)
        ensures
            s == self.current_score,
    {
        self.current_score
    }

    /// The best score seen this session, in milliseconds of survival.
    pub fn get_record_millis(&self) -> (r: i64)
        ensures
            r == self.record,
    {
        self.record
    }
}

} // verus!

verus! {

/// Relies on std's `String::push`: appends the given character to the end
/// of the string.
pub assume_specification[ String::push ](s: &mut String, c: char)
    ensures
        final(s)@ == old(s)@.push(c),
;

/// The decimal digit `d` as a character.
pub open spec fn digit_char(d: int) -> char {
    if d == 0 {
        '0'
    } else if d == 1 {
        '1'
    } else if d == 2 {
        '2'
    } else if d == 3 {
        '3'
    } else if d == 4 {
        '4'
    } else if d == 5 {
        '5'
    } else if d == 6 {
        '6'
    } else if d == 7 {
        '7'
    } else if d == 8 {
        '8'
    } else {
        '9'
    }
}

/// The decimal digits of `n`, most significant first; empty for zero and
/// below.
pub open spec fn dec_digits(n: int) -> Seq<char>
    decreases n,
{
    if n <= 0 {
        Seq::empty()
    } else {
        dec_digits(n / 10).push(digit_char(n % 10))
    }
}

/// A score in milliseconds as decimal text: the whole seconds, a point, and
/// two decimals.
pub open spec fn score_number_text(millis: int) -> Seq<char> {
    let secs = millis / 1000;
    let centis = (millis % 1000) / 10;
    (if secs == 0 {
        seq!['0']
    } else {
        dec_digits(secs)
    }) + seq!['.', digit_char(centis / 10), digit_char(centis % 10)]
}

/// Converts one decimal digit to its character.
fn digit_to_char(d: u64) -> (c: char)
    requires
        d < 10,
    ensures
        c == digit_char(d as int),
{
    if d == 0 {
        '0'
    } else if d == 1 {
        '1'
    } else if d == 2 {
        '2'
    } else if d == 3 {
        '3'
    } else if d == 4 {
        '4'
    } else if d == 5 {
        '5'
    } else if d == 6 {
        '6'
    } else if d == 7 {
        '7'
    } else if d == 8 {
        '8'
    } else {
        '9'
    }
}

/// Appends the decimal digits of `n` to the string, a single zero for zero.
#[verifier::loop_isolation(false)]
fn push_number(s: &mut String, n: u64)
    ensures
        final(s)@ == old(s)@ + (if n == 0 {
            seq!['0']
        } else {
            dec_digits(n as int)
        }),
{
    let ghost s0 = s@;
    if n == 0 {
        s.push('0');
        proof {
            assert(s@ =~= s0 + seq!['0']);
        }
        return ;
    }
    let mut rev: Vec<char> = Vec::new();
    let mut m: u64 = n;
    while m > 0
        invariant
            dec_digits(n as int) == dec_digits(m as int) + rev@.reverse(),
        decreases m,
    {
        let ghost rev0 = rev@;
        let d: u64 = m % 10;
        rev.push(digit_to_char(d));
        proof {
            assert(rev@.reverse() =~= seq![digit_char(d as int)] + rev0.reverse());
            assert(dec_digits(m as int) == dec_digits(m as int / 10).push(digit_char(d as int)));
            assert(dec_digits(m as int / 10).push(digit_char(d as int)) =~= dec_digits(
                m as int / 10,
            ) + seq![digit_char(d as int)]);
            assert(dec_digits(m as int / 10) + rev@.reverse() =~= dec_digits(m as int)
                + rev0.reverse());
        }
        m = m / 10;
    }
    proof {
        assert(dec_digits(n as int) == rev@.reverse());
    }
    let len = rev.len();
    let mut k: usize = 0;
    while k < len
        invariant
            k <= len,
            len == rev@.len(),
            s@ == s0 + rev@.reverse().take(k as int),
        decreases len - k,
    {
        let c = rev[len - 1 - k];
        s.push(c);
        proof {
            assert(rev@.reverse()[k as int] == rev@[len - 1 - k]);
            assert(rev@.reverse().take(k as int + 1) =~= rev@.reverse().take(k as int).push(
                rev@.reverse()[k as int],
            ));
        }
        k = k + 1;
    }
    proof {
        assert(rev@.reverse().take(len as int) =~= rev@.reverse());
    }
}

/// Appends a score in milliseconds as seconds with two decimals.
fn push_score_number(s: &mut String, millis: i64)
    requires
        0 <= millis,
    ensures
        final(s)@ == old(s)@ + score_number_text(millis as int),
{
    let ghost s0 = s@;
    let mu: u64 = millis as u64;
    let secs: u64 = mu / 1_000;
    let centis: u64 = (mu % 1_000) / 10;
    push_number(s, secs);
    s.push('.');
    s.push(digit_to_char(centis / 10));
    s.push(digit_to_char(centis % 10));
    proof {
        assert(s@ =~= s0 + score_number_text(millis as int));
    }
}

impl HighScore {
    /// The current run's score line: the label, then seconds with two
    /// decimals.
    pub fn get_score_string(&self) -> (s: String)
        requires
            self.wf(),
        ensures
            s@ == "Current Score: "@ + score_number_text(self.current_score as int),
    {
        let mut s: String = "Current Score: ".to_owned();
        push_score_number(&mut s, self.current_score);
        s
    }

    /// The record line: the label, then seconds with two decimals.
    pub fn get_record_string(&self) -> (s: String)
        requires
            self.wf(),
        ensures
            s@ == "Record: "@ + score_number_text(self.record as int),
    {
        let mut s: String = "Record: ".to_owned();
        push_score_number(&mut s, self.record);
        s
    }

    /// The stored record is rewritten at session end exactly when the
    /// current run has at least matched it.
    pub fn should_store(&self) -> (r: bool)
        ensures
            r == (self.current_score >= self.record),
    {
        self.current_score >= self.record
    }
}

} // verus!
