//! The manual entry field: a short buffer typed as `MM:SS`, and the reading
//! of a finished entry as a number of seconds.

use vstd::prelude::*;

verus! {

/// Most characters the buffer holds.
pub const MAX_ENTRY_LEN: usize = 5;

/// An ASCII decimal digit.
pub open spec fn is_digit(c: char) -> bool {
    '0' <= c && c <= '9'
}

/// The value of an ASCII decimal digit.
pub open spec fn digit_value(c: char) -> nat {
    ((c as u32) - ('0' as u32)) as nat
}

/// The number that a string of decimal digits spells.
pub open spec fn digits_value(s: Seq<char>) -> nat
    decreases s.len(),
{
    if s.len() == 0 {
        0
    } else {
        digits_value(s.drop_last()) * 10 + digit_value(s.last())
    }
}

/// The digits of an unsigned number with its optional leading `+` removed.
pub open spec fn unsigned_digits(s: Seq<char>) -> Seq<char> {
    if s.len() > 0 && s[0] == '+' {
        s.drop_first()
    } else {
        s
    }
}

/// Whether `s` reads as a `u64` in the usual textual form: an optional `+`,
/// then one or more decimal digits, of a value that fits in 64 bits.
pub open spec fn reads_as_u64(s: Seq<char>) -> bool {
    let d = unsigned_digits(s);
    &&& d.len() > 0
    &&& forall|i: int| 0 <= i < d.len() ==> is_digit(#[trigger] d[i])
    &&& digits_value(d) <= u64::MAX
}

/// Whether `i` is the position of the first colon of `s`.
pub open spec fn is_first_colon(s: Seq<char>, i: int) -> bool {
    &&& 0 <= i < s.len()
    &&& s[i] == ':'
    &&& forall|j: int| 0 <= j < i ==> s[j] != ':'
}

/// The duration in seconds that a finished entry stands for: the text before
/// the first colon is minutes, the text after it seconds, and both must read
/// as numbers. `None` where there is no colon or a half does not read.
pub open spec fn entry_seconds(s: Seq<char>) -> Option<nat> {
    if exists|i: int| is_first_colon(s, i) {
        let i = choose|i: int| is_first_colon(s, i);
        let minutes = s.take(i);
        let seconds = s.skip(i + 1);
        if reads_as_u64(minutes) && reads_as_u64(seconds) {
            Some(digits_value(unsigned_digits(minutes)) * 60 + digits_value(
                unsigned_digits(seconds),
            ))
        } else {
            None
        }
    } else {
        None
    }
}

/// The buffer after typing `text`: a colon goes in first when the buffer
/// holds exactly two characters and no colon; the result is cut to its
/// first five characters.
pub open spec fn typed(buf: Seq<char>, text: Seq<char>) -> Seq<char> {
    let base = if buf.len() == 2 && !buf.contains(':') {
        buf.push(':')
    } else {
        buf
    };
    let joined = base + text;
    if joined.len() > MAX_ENTRY_LEN {
        joined.take(MAX_ENTRY_LEN as int)
    } else {
        joined
    }
}

/// The buffer after one backspace: the last character goes, and where two
/// characters are left ending in a colon, the colon goes too.
pub open spec fn erased(buf: Seq<char>) -> Seq<char> {
    let shorter = if buf.len() > 0 {
        buf.drop_last()
    } else {
        buf
    };
    if shorter.len() == 2 && shorter[1] == ':' {
        shorter.drop_last()
    } else {
        shorter
    }
}

proof fn lemma_digits_value_bound(s: Seq<char>)
    requires
        forall|i: int| 0 <= i < s.len() ==> is_digit(#[trigger] s[i]),
    ensures
        s.len() <= 4 ==> digits_value(s) <= 9999,
        s.len() <= 3 ==> digits_value(s) <= 999,
        s.len() <= 2 ==> digits_value(s) <= 99,
        s.len() <= 1 ==> digits_value(s) <= 9,
    decreases s.len(),
{
    if s.len() > 0 {
        let p = s.drop_last();
        assert forall|i: int| 0 <= i < p.len() implies is_digit(#[trigger] p[i]) by {
            assert(p[i] == s[i]);
        }
        lemma_digits_value_bound(p);
        assert(is_digit(s[s.len() - 1]));
    }
}

/// Whether `s` holds a colon.
fn has_colon(s: &str) -> (r: bool)
    ensures
        r == s@.contains(':'),
{
    let n = s.unicode_len();
    let mut i: usize = 0;
    while i < n
        invariant
            n == s@.len(),
            i <= n,
            forall|j: int| 0 <= j < i ==> s@[j] != ':',
        decreases n - i,
    {
        if s.get_char(i) == ':' {
            return true;
        }
        i = i + 1;
    }
    false
}

/// Position of the first colon of `s`, if any.
fn find_colon(s: &str) -> (r: Option<usize>)
    ensures
        r matches Some(i) ==> is_first_colon(s@, i as int),
        r is None ==> !s@.contains(':'),
{
    let n = s.unicode_len();
    let mut i: usize = 0;
    while i < n
        invariant
            n == s@.len(),
            i <= n,
            forall|j: int| 0 <= j < i ==> s@[j] != ':',
        decreases n - i,
    {
        if s.get_char(i) == ':' {
            return Some(i);
        }
        i = i + 1;
    }
    None
}

/// Reads `s` as a `u64`: an optional `+`, then decimal digits.
fn read_u64(s: &str) -> (r: Option<u64>)
    ensures
        r is Some <==> reads_as_u64(s@),
        r matches Some(v) ==> v == digits_value(unsigned_digits(s@)),
{
    let n = s.unicode_len();
    let start: usize = if n > 0 && s.get_char(0) == '+' {
        1
    } else {
        0
    };
    let ghost d = unsigned_digits(s@);
    assert(d =~= s@.skip(start as int));
    if start == n {
        return None;
    }
    let mut value: u64 = 0;
    let mut i: usize = start;
    while i < n
        invariant
            n == s@.len(),
            start <= i <= n,
            d =~= s@.skip(start as int),
            d == unsigned_digits(s@),
            forall|j: int| 0 <= j < i - start ==> is_digit(#[trigger] d[j]),
            value == digits_value(d.take(i - start)),
        decreases n - i,
    {
        let c = s.get_char(i);
        assert(d.take(i - start + 1).drop_last() =~= d.take(i - start));
        assert(c == d[i - start]);
        if c < '0' || c > '9' {
            assert(!is_digit(d[i - start]));
            return None;
        }
        let digit: u64 = (c as u32 - '0' as u32) as u64;
        assert(digits_value(d.take(i - start + 1)) == value * 10 + digit);
        match value.checked_mul(10) {
            Some(tens) => match tens.checked_add(digit) {
                Some(next) => {
                    value = next;
                },
                None => {
                    proof {
                        lemma_digits_value_monotone(d, i - start + 1);
                    }
                    return None;
                },
            },
            None => {
                proof {
                    lemma_digits_value_monotone(d, i - start + 1);
                }
                return None;
            },
        }
        i = i + 1;
    }
    assert(d.take(n - start) =~= d);
    Some(value)
}

/// A longer prefix of digits never spells a smaller number.
proof fn lemma_digits_value_monotone(d: Seq<char>, k: int)
    requires
        0 <= k <= d.len(),
    ensures
        digits_value(d.take(k)) <= digits_value(d),
    decreases d.len() - k,
{
    if k < d.len() {
        lemma_digits_value_monotone(d, k + 1);
        assert(d.take(k + 1).drop_last() =~= d.take(k));
    } else {
        assert(d.take(k) =~= d);
    }
}

/// The manual entry buffer.
pub struct TextEntry {
    text: String,
}

impl View for TextEntry {
    type V = Seq<char>;

    closed spec fn view(&self) -> Seq<char> {
        self.text@
    }
}

impl TextEntry {
    /// The buffer never holds more than five characters.
    pub open spec fn wf(&self) -> bool {
        self@.len() <= MAX_ENTRY_LEN
    }

    /// An empty buffer.
    pub fn new() -> (r: TextEntry)
        ensures
            r.wf(),
            r@ == Seq::<char>::empty(),
    {
        TextEntry { text: String::new() }
    }

    /// The characters typed so far.
    pub fn as_str(&self) -> (r: &str)
        ensures
            r@ == self@,
    {
        self.text.as_str()
    }

    /// Whether nothing has been typed.
    pub fn is_empty(&self) -> (r: bool)
        ensures
            r == (self@.len() == 0),
    {
        self.text.as_str().unicode_len() == 0
    }

    /// Types `text`, inserting the colon after two characters and dropping
    /// what goes past five characters.
    pub fn append(&mut self, text: &str)
        requires
            old(self).wf(),
        ensures
            final(self).wf(),
            final(self)@ == typed(old(self)@, text@),
    {
        if self.text.as_str().unicode_len() == 2 && !has_colon(self.text.as_str()) {
            proof {
                reveal_strlit(":");
            }
            self.text.append(":");
        }
        self.text.append(text);
        let n = self.text.as_str().unicode_len();
        if n > MAX_ENTRY_LEN {
            let kept = String::from_str(self.text.as_str().substring_char(0, MAX_ENTRY_LEN));
            self.text = kept;
        }
        assert(self.text@ =~= typed(old(self)@, text@));
    }

    /// Erases the last character, and a colon left dangling after the first
    /// two characters.
    pub fn backspace(&mut self)
        requires
            old(self).wf(),
        ensures
            final(self).wf(),
            final(self)@ == erased(old(self)@),
    {
        let n = self.text.as_str().unicode_len();
        if n > 0 {
            let kept = String::from_str(self.text.as_str().substring_char(0, n - 1));
            self.text = kept;
        }
        let m = self.text.as_str().unicode_len();
        if m == 2 && self.text.as_str().get_char(1) == ':' {
            let kept = String::from_str(self.text.as_str().substring_char(0, 1));
            self.text = kept;
        }
        assert(self.text@ =~= erased(old(self)@));
    }

    /// Reads the buffer as `MM:SS`. On success the buffer is cleared and the
    /// duration in seconds returned; otherwise nothing changes.
    pub fn commit(&mut self) -> (r: Option<u64>)
        requires
            old(self).wf(),
        ensures
            final(self).wf(),
            r is Some <==> entry_seconds(old(self)@) is Some,
            r matches Some(secs) ==> entry_seconds(old(self)@) == Some(secs as nat)
                && final(self)@ == Seq::<char>::empty(),
            r is None ==> final(self)@ == old(self)@,
    {
        let ghost s = self@;
        let n = self.text.as_str().unicode_len();
        let found = find_colon(self.text.as_str());
        match found {
            None => {
                assert(!exists|i: int| is_first_colon(s, i));
                None
            },
            Some(i) => {
                let minutes_text = self.text.as_str().substring_char(0, i);
                let seconds_text = self.text.as_str().substring_char(i + 1, n);
                proof {
                    assert(forall|j: int| is_first_colon(s, j) ==> j == i);
                    assert(minutes_text@ =~= s.take(i as int));
                    assert(seconds_text@ =~= s.skip(i + 1));
                }
                let minutes = read_u64(minutes_text);
                let seconds = read_u64(seconds_text);
                match (minutes, seconds) {
                    (Some(m), Some(sec)) => {
                        proof {
                            lemma_digits_value_bound(unsigned_digits(minutes_text@));
                            lemma_digits_value_bound(unsigned_digits(seconds_text@));
                        }
                        self.text = String::new();
                        Some(m * 60 + sec)
                    },
                    _ => None,
                }
            },
        }
    }
}

} // verus!
