//! Tasks, the task entry form, and the browsable task tables.

use crate::focus::{ring_next, ring_previous, ring_wf, spec_ring_next, spec_ring_previous};
use crate::states::{Action, AppMessage, KeyCode, KeyEvent};
use crate::text::{dec_digits, digit_val, digit_value, is_digit, u64_to_string};
use vstd::prelude::*;

verus! {

/// How many seconds of lateness still count as "completed in the last day".
pub const RECENT_SECS: i64 = 86400;

/// Default work duration in seconds when the form field does not parse.
pub const DEFAULT_WORK_SECS: u64 = 1500;

/// Default short-break duration in seconds when the form field does not parse.
pub const DEFAULT_SHORT_BREAK_SECS: u64 = 300;

/// Default long-break duration in seconds when the form field does not parse.
pub const DEFAULT_LONG_BREAK_SECS: u64 = 900;

/// A task: an identity assigned by the store (absent for an unsaved draft),
/// an optional description, the three configured durations in seconds, the
/// monotonically increasing completed-cycle counter, and the completion
/// instant in seconds since the epoch (absent while the task is active).
pub struct Task {
    pub id: Option<u32>,
    pub desc: Option<String>,
    pub work_secs: u64,
    pub short_break_secs: u64,
    pub long_break_secs: u64,
    pub pomos_finished: u32,
    pub completed: Option<i64>,
}

impl Default for Task {
    /// An unsaved draft with the default durations of 25, 5 and 15 minutes.
    fn default() -> (t: Task)
        ensures
            t.id is None,
            t.desc is None,
            t.work_secs == DEFAULT_WORK_SECS,
            t.short_break_secs == DEFAULT_SHORT_BREAK_SECS,
            t.long_break_secs == DEFAULT_LONG_BREAK_SECS,
            t.pomos_finished == 0,
            t.completed is None,
    {
        Task {
            id: None,
            desc: None,
            work_secs: DEFAULT_WORK_SECS,
            short_break_secs: DEFAULT_SHORT_BREAK_SECS,
            long_break_secs: DEFAULT_LONG_BREAK_SECS,
            pomos_finished: 0,
            completed: None,
        }
    }
}

impl Task {
    /// An exact copy of the task.
    pub fn duplicate(&self) -> (t: Task)
        ensures
            t == *self,
    {
        let desc = match &self.desc {
            Some(d) => Some(d.clone()),
            None => None,
        };
        Task {
            id: self.id,
            desc,
            work_secs: self.work_secs,
            short_break_secs: self.short_break_secs,
            long_break_secs: self.long_break_secs,
            pomos_finished: self.pomos_finished,
            completed: self.completed,
        }
    }

    /// The text for a duration: whole minutes, with a seconds part only when
    /// the duration is not a whole number of minutes.
    pub open spec fn spec_format_time(seconds: u64) -> Seq<char> {
        if seconds % 60 == 0 {
            dec_digits((seconds / 60) as nat) + "m"@
        } else {
            dec_digits((seconds / 60) as nat) + "m"@ + dec_digits((seconds % 60) as nat) + "s"@
        }
    }

    /// Render a duration in seconds as minutes and seconds.
    pub fn format_time(seconds: u64) -> (s: String)
        ensures
            s@ == Task::spec_format_time(seconds),
    {
        let mins: u64 = seconds / 60;
        let secs: u64 = seconds % 60;
        if secs == 0 {
            let mut s = u64_to_string(mins);
            s.append("m");
            assert(s@ =~= Task::spec_format_time(seconds));
            s
        } else {
            let mut s = u64_to_string(mins);
            s.append("m");
            s.append(u64_to_string(secs).as_str());
            s.append("s");
            assert(s@ =~= Task::spec_format_time(seconds));
            s
        }
    }

    /// The identity padded on the left to at least three characters, as the
    /// stored-task listing prints it.
    pub open spec fn spec_padded_id(id: u32) -> Seq<char> {
        if id < 10 {
            "  "@ + dec_digits(id as nat)
        } else if id < 100 {
            " "@ + dec_digits(id as nat)
        } else {
            dec_digits(id as nat)
        }
    }

    /// The one-line text for a stored task: padded identity, description,
    /// and the three durations separated by slashes.
    pub open spec fn spec_summary(self) -> Seq<char> {
        Task::spec_padded_id(self.id->0) + ": "@ + self.desc->0@ + " || "@ + Task::spec_format_time(
            self.work_secs,
        ) + "/"@ + Task::spec_format_time(self.short_break_secs) + "/"@ + Task::spec_format_time(
            self.long_break_secs,
        )
    }

    /// Render the one-line listing text for a stored task, which always has
    /// an identity and a description.
    pub fn summary(&self) -> (s: String)
        requires
            self.id is Some,
            self.desc is Some,
        ensures
            s@ == self.spec_summary(),
    {
        let id = match self.id {
            Some(i) => i,
            None => 0,
        };
        let mut s = if id < 10 {
            "  ".to_owned()
        } else if id < 100 {
            " ".to_owned()
        } else {
            "".to_owned()
        };
        s.append(u64_to_string(id as u64).as_str());
        s.append(": ");
        match &self.desc {
            Some(d) => s.append(d.as_str()),
            None => (),
        }
        s.append(" || ");
        s.append(Task::format_time(self.work_secs).as_str());
        s.append("/");
        s.append(Task::format_time(self.short_break_secs).as_str());
        s.append("/");
        s.append(Task::format_time(self.long_break_secs).as_str());
        proof {
            reveal_strlit("");
            assert(s@ =~= self.spec_summary());
        }
        s
    }
}

/// The numeric value of a sequence of decimal digit characters, most
/// significant first.
pub open spec fn digits_value(s: Seq<char>) -> nat
    decreases s.len(),
{
    if s.len() == 0 {
        0
    } else {
        digits_value(s.drop_last()) * 10 + digit_val(s.last())
    }
}

/// Whether every character is a decimal digit.
pub open spec fn all_digits(s: Seq<char>) -> bool {
    forall|i: int| 0 <= i < s.len() ==> is_digit(#[trigger] s[i])
}

/// Ten to the `k`.
pub open spec fn pow10(k: nat) -> nat
    decreases k,
{
    if k == 0 {
        1
    } else {
        10 * pow10((k - 1) as nat)
    }
}

proof fn lemma_pow10_pos(k: nat)
    ensures
        pow10(k) >= 1,
    decreases k,
{
    if k > 0 {
        lemma_pow10_pos((k - 1) as nat);
    }
}

/// The whole seconds that digits after the point contribute, read as a
/// decimal fraction of a minute: `value / 10^k` minutes times sixty,
/// rounded down.
pub open spec fn frac_secs(s: Seq<char>) -> nat {
    (60 * digits_value(s)) / pow10(s.len())
}

/// The index of the first point in the text, or its length when there is
/// none.
pub open spec fn dot_index(s: Seq<char>) -> int
    decreases s.len(),
{
    if s.len() == 0 {
        0
    } else if s.first() == '.' {
        0
    } else {
        1 + dot_index(s.drop_first())
    }
}

/// The digits before the first point.
pub open spec fn whole_part(s: Seq<char>) -> Seq<char> {
    s.take(dot_index(s))
}

/// The digits after the point; empty when there is none.
pub open spec fn frac_part(s: Seq<char>) -> Seq<char> {
    if dot_index(s) < s.len() {
        s.skip(dot_index(s) + 1)
    } else {
        Seq::empty()
    }
}

/// The text is a plain decimal numeral: every character a digit or a
/// point, at most one point, and at least one digit.
pub open spec fn is_decimal(s: Seq<char>) -> bool {
    &&& forall|i: int| 0 <= i < s.len() ==> (is_digit(#[trigger] s[i]) || s[i] == '.')
    &&& exists|i: int| 0 <= i < s.len() && is_digit(#[trigger] s[i])
    &&& forall|i: int, j: int|
        #![trigger s[i], s[j]]
        0 <= i < j < s.len() && s[i] == '.' ==> s[j] != '.'
}

/// The seconds a decimal numeral of minutes denotes: sixty times its whole
/// part, plus its fraction of a minute rounded down to whole seconds.
pub open spec fn decimal_secs(s: Seq<char>) -> nat {
    60 * digits_value(whole_part(s)) + frac_secs(frac_part(s))
}

/// What submitting a numeric form field yields: the seconds denoted by a
/// decimal numeral of minutes, fractions rounded down to whole seconds,
/// provided the total fits the machine word; any other text fails to
/// parse.
pub open spec fn spec_parse_minutes(s: Seq<char>) -> Option<u64> {
    if is_decimal(s) && decimal_secs(s) <= u64::MAX {
        Some(decimal_secs(s) as u64)
    } else {
        None
    }
}

/// The seconds a numeric form field contributes: its parsed value, or the
/// field's default when parsing fails.
pub open spec fn spec_field_secs(s: Seq<char>, default_secs: u64) -> u64 {
    match spec_parse_minutes(s) {
        Some(v) => v,
        None => default_secs,
    }
}

/// A position below `d` never holds a point and `d` itself does (or is the
/// end), exactly when `d` is the first point's index.
proof fn lemma_dot_index_at(s: Seq<char>, d: int)
    requires
        0 <= d <= s.len(),
        forall|i: int| 0 <= i < d ==> s[i] != '.',
        d < s.len() ==> s[d] == '.',
    ensures
        dot_index(s) == d,
    decreases s.len(),
{
    if s.len() > 0 && d > 0 {
        assert(s.first() != '.');
        let rest = s.drop_first();
        assert(forall|i: int| 0 <= i < d - 1 ==> #[trigger] rest[i] == s[i + 1] && rest[i] != '.');
        assert(d - 1 < rest.len() ==> rest[d - 1] == s[d]);
        lemma_dot_index_at(rest, d - 1);
    }
}

/// The numeral's value decomposed at its most significant digit.
proof fn lemma_digits_value_first(s: Seq<char>)
    requires
        s.len() > 0,
    ensures
        digits_value(s) == digit_val(s.first()) * pow10((s.len() - 1) as nat) + digits_value(
            s.drop_first(),
        ),
    decreases s.len(),
{
    let e = digit_val(s.first());
    if s.len() == 1 {
        assert(s.drop_last() =~= Seq::<char>::empty());
        assert(s.drop_first() =~= Seq::<char>::empty());
        assert(s.last() == s.first());
    } else {
        let sdl = s.drop_last();
        lemma_digits_value_first(sdl);
        assert(sdl.first() == s.first());
        assert(sdl.drop_first() =~= s.drop_first().drop_last());
        assert(s.drop_first().last() == s.last());
        let m2 = pow10((s.len() - 2) as nat);
        let rdl = digits_value(s.drop_first().drop_last());
        assert(digits_value(s) == (e * m2 + rdl) * 10 + digit_val(s.last()));
        assert((e * m2 + rdl) * 10 == e * (10 * m2) + rdl * 10) by (nonlinear_arith);
        assert(pow10((s.len() - 1) as nat) == 10 * m2);
        assert(digits_value(s.drop_first()) == rdl * 10 + digit_val(s.last()));
    }
}

/// A fraction of a minute is under sixty seconds, and unfolds one digit at
/// a time: the first digit stands for six seconds each, the rest for a
/// tenth of their own contribution.
proof fn lemma_frac_secs(s: Seq<char>)
    requires
        all_digits(s),
    ensures
        frac_secs(s) <= 59,
        s.len() > 0 ==> frac_secs(s) == 6 * digit_val(s.first()) + frac_secs(s.drop_first()) / 10,
    decreases s.len(),
{
    if s.len() == 0 {
        assert(frac_secs(s) == 0);
    } else {
        let e = digit_val(s.first());
        assert(is_digit(s[0]));
        assert(e <= 9);
        let rest = s.drop_first();
        assert forall|i: int| 0 <= i < rest.len() implies is_digit(#[trigger] rest[i]) by {
            assert(rest[i] == s[i + 1]);
        }
        lemma_frac_secs(rest);
        let r = digits_value(rest);
        let m = pow10(rest.len());
        lemma_pow10_pos(rest.len());
        lemma_digits_value_first(s);
        assert(digits_value(s) == e * m + r);
        assert(pow10(s.len()) == 10 * m);
        assert(60 * (e * m + r) == 60 * r + (6 * e) * ((10 * m) as int)) by (nonlinear_arith);
        vstd::arithmetic::div_mod::lemma_hoist_over_denominator(
            (60 * r) as int,
            (6 * e) as int,
            (10 * m) as nat,
        );
        assert((60 * digits_value(s)) as int / (10 * m) as int == 6 * e + (60 * r) as int / (10
            * m) as int);
        vstd::arithmetic::div_mod::lemma_div_denominator((60 * r) as int, m as int, 10);
        assert((m * 10) as int == (10 * m) as int) by (nonlinear_arith);
        assert((60 * r) as int / (10 * m) as int == ((60 * r) as int / m as int) / 10);
        assert(frac_secs(rest) == (60 * r) / m);
        assert(frac_secs(rest) / 10 <= 5);
    }
}

/// Parse a form field as a decimal numeral of minutes, in whole seconds.
pub fn parse_minutes(text: &Vec<char>) -> (r: Option<u64>)
    ensures
        r == spec_parse_minutes(text@),
{
    let n = text.len();
    // scan for the first point, a second point, foreign characters, digits
    let mut dot: usize = n;
    let mut extra_dot = false;
    let mut foreign = false;
    let mut has_digit = false;
    let mut k: usize = 0;
    while k < n
        invariant
            n == text@.len(),
            k <= n,
            dot <= n,
            dot == n ==> forall|i: int| 0 <= i < k ==> text@[i] != '.',
            dot < n ==> dot < k && text@[dot as int] == '.' && (forall|i: int|
                0 <= i < dot ==> text@[i] != '.'),
            extra_dot <==> exists|i: int, j: int|
                #![trigger text@[i], text@[j]]
                0 <= i < j < k && text@[i] == '.' && text@[j] == '.',
            foreign <==> exists|i: int|
                0 <= i < k && !is_digit(#[trigger] text@[i]) && text@[i] != '.',
            has_digit <==> exists|i: int| 0 <= i < k && is_digit(#[trigger] text@[i]),
        decreases n - k,
    {
        let c = text[k];
        if c == '.' {
            if dot == n {
                dot = k;
            } else {
                proof {
                    assert(text@[dot as int] == '.' && text@[k as int] == '.');
                }
                extra_dot = true;
            }
        } else if digit_value(c) < 10 {
            proof {
                assert(is_digit(text@[k as int]));
            }
            has_digit = true;
        } else {
            proof {
                assert(!is_digit(text@[k as int]) && text@[k as int] != '.');
            }
            foreign = true;
        }
        k += 1;
    }
    if extra_dot || foreign || !has_digit {
        proof {
            assert(!is_decimal(text@));
        }
        return None;
    }
    proof {
        assert(is_decimal(text@));
        lemma_dot_index_at(text@, dot as int);
        assert forall|i: int| 0 <= i < dot implies is_digit(#[trigger] text@[i]) by {
            assert(text@[i] != '.');
        }
        assert forall|i: int| dot < i < n implies is_digit(#[trigger] text@[i]) by {
            assert(text@[i] != '.');
        }
    }
    // the whole minutes, with overflow detected against the threshold
    let maxm: u64 = u64::MAX / 60;
    let mut val: u64 = 0;
    let mut over = false;
    let mut w: usize = 0;
    while w < dot
        invariant
            n == text@.len(),
            dot <= n,
            w <= dot,
            maxm == u64::MAX / 60,
            forall|i: int| 0 <= i < dot ==> is_digit(#[trigger] text@[i]),
            !over ==> val == digits_value(text@.take(w as int)) && val <= maxm,
            over ==> digits_value(text@.take(w as int)) > maxm,
        decreases dot - w,
    {
        let c = text[w];
        let d = digit_value(c);
        proof {
            assert(text@.take(w as int + 1).drop_last() =~= text@.take(w as int));
            assert(text@.take(w as int + 1).last() == text@[w as int]);
        }
        if !over {
            let nv = val * 10 + d;
            if nv > maxm {
                over = true;
            } else {
                val = nv;
            }
        }
        w += 1;
    }
    proof {
        assert(whole_part(text@) =~= text@.take(dot as int));
    }
    if over {
        proof {
            assert(decimal_secs(text@) > u64::MAX) by {
                assert(digits_value(whole_part(text@)) >= maxm + 1);
                assert(60 * (maxm + 1) > u64::MAX);
            }
        }
        return None;
    }
    let whole60: u64 = val * 60;
    // the fraction of a minute, one digit at a time from the right
    let mut acc: u64 = 0;
    if dot < n {
        let mut i: usize = n;
        while i > dot + 1
            invariant
                n == text@.len(),
                dot < n,
                dot + 1 <= i <= n,
                forall|j: int| dot < j < n ==> is_digit(#[trigger] text@[j]),
                acc == frac_secs(text@.skip(i as int)),
                acc <= 59,
            decreases i,
        {
            let c = text[i - 1];
            let d = digit_value(c);
            proof {
                let suffix = text@.skip(i as int - 1);
                assert(suffix.first() == text@[i as int - 1]);
                assert(suffix.drop_first() =~= text@.skip(i as int));
                assert forall|j: int| 0 <= j < suffix.len() implies is_digit(
                    #[trigger] suffix[j],
                ) by {
                    assert(suffix[j] == text@[i as int - 1 + j]);
                }
                lemma_frac_secs(suffix);
            }
            acc = 6 * d + acc / 10;
            i -= 1;
        }
        proof {
            assert(frac_part(text@) =~= text@.skip(dot as int + 1));
        }
    } else {
        proof {
            assert(frac_part(text@) =~= Seq::<char>::empty());
            assert(frac_secs(frac_part(text@)) == 0);
        }
    }
    match whole60.checked_add(acc) {
        Some(total) => {
            proof {
                assert(decimal_secs(text@) == whole60 + acc);
            }
            Some(total)
        },
        None => {
            proof {
                assert(decimal_secs(text@) > u64::MAX);
            }
            None
        },
    }
}

/// One text-entry field: a fixed title and the characters entered so far.
pub struct UserInput {
    pub title: String,
    pub text: Vec<char>,
}

impl UserInput {
    /// An empty field under the given title.
    pub fn new(title: String) -> (u: UserInput)
        ensures
            u.title == title,
            u.text@.len() == 0,
    {
        UserInput { title, text: Vec::new() }
    }

    /// Append one character.
    pub fn push(&mut self, c: char)
        ensures
            final(self).title == old(self).title,
            final(self).text@ == old(self).text@.push(c),
    {
        self.text.push(c);
    }

    /// Remove and return the last character, if any.
    pub fn pop(&mut self) -> (r: Option<char>)
        ensures
            final(self).title == old(self).title,
            old(self).text@.len() > 0 ==> r == Some(old(self).text@.last()) && final(self).text@
                == old(self).text@.drop_last(),
            old(self).text@.len() == 0 ==> r is None && final(self).text@ == old(self).text@,
    {
        self.text.pop()
    }
}

/// A group of text-entry fields with a focus ring over them.  Characters go
/// to the focused field; moving focus wraps around the group.
pub struct InputGroup {
    pub inputs: Vec<UserInput>,
    pub focused: Option<usize>,
}

impl InputGroup {
    /// The focus cursor is absent or a valid field index.
    pub open spec fn wf(self) -> bool {
        ring_wf(self.focused, self.inputs.len())
    }

    /// How `push` changes the group: the focused field gains the character
    /// at the end of its text; with no focus, nothing changes.
    pub open spec fn push_rel(pre: InputGroup, c: char, post: InputGroup) -> bool {
        match pre.focused {
            None => post == pre,
            Some(i) => {
                &&& post.focused == pre.focused
                &&& post.inputs@.len() == pre.inputs@.len()
                &&& forall|j: int|
                    0 <= j < pre.inputs@.len() && j != i ==> post.inputs@[j] == pre.inputs@[j]
                &&& post.inputs@[i as int].title == pre.inputs@[i as int].title
                &&& post.inputs@[i as int].text@ == pre.inputs@[i as int].text@.push(c)
            },
        }
    }

    /// How `pop` changes the group: the focused field loses its last
    /// character, which is returned; with no focus or an empty field,
    /// nothing changes.
    pub open spec fn pop_rel(pre: InputGroup, post: InputGroup, r: Option<char>) -> bool {
        match pre.focused {
            None => post == pre && r is None,
            Some(i) => {
                &&& post.focused == pre.focused
                &&& post.inputs@.len() == pre.inputs@.len()
                &&& forall|j: int|
                    0 <= j < pre.inputs@.len() && j != i ==> post.inputs@[j] == pre.inputs@[j]
                &&& post.inputs@[i as int].title == pre.inputs@[i as int].title
                &&& pre.inputs@[i as int].text@.len() > 0 ==> r == Some(
                    pre.inputs@[i as int].text@.last(),
                ) && post.inputs@[i as int].text@ == pre.inputs@[i as int].text@.drop_last()
                &&& pre.inputs@[i as int].text@.len() == 0 ==> r is None
                    && post.inputs@[i as int].text@ == pre.inputs@[i as int].text@
            },
        }
    }

    /// How a backspace changes the group, whatever character it removed: the
    /// focused field loses its last character if it has one; with no focus,
    /// nothing changes.
    pub open spec fn pop_any_rel(pre: InputGroup, post: InputGroup) -> bool {
        match pre.focused {
            None => post == pre,
            Some(i) => {
                &&& post.focused == pre.focused
                &&& post.inputs@.len() == pre.inputs@.len()
                &&& forall|j: int|
                    0 <= j < pre.inputs@.len() && j != i ==> post.inputs@[j] == pre.inputs@[j]
                &&& post.inputs@[i as int].title == pre.inputs@[i as int].title
                &&& post.inputs@[i as int].text@ == if pre.inputs@[i as int].text@.len() > 0 {
                    pre.inputs@[i as int].text@.drop_last()
                } else {
                    pre.inputs@[i as int].text@
                }
            },
        }
    }

    /// How `clear` changes the group: the focused field's text is emptied;
    /// with no focus, nothing changes.
    pub open spec fn clear_rel(pre: InputGroup, post: InputGroup) -> bool {
        match pre.focused {
            None => post == pre,
            Some(i) => {
                &&& post.focused == pre.focused
                &&& post.inputs@.len() == pre.inputs@.len()
                &&& forall|j: int|
                    0 <= j < pre.inputs@.len() && j != i ==> post.inputs@[j] == pre.inputs@[j]
                &&& post.inputs@[i as int].title == pre.inputs@[i as int].title
                &&& post.inputs@[i as int].text@.len() == 0
            },
        }
    }

    /// Append a character to the focused field.
    pub fn push(&mut self, c: char)
        requires
            old(self).wf(),
        ensures
            final(self).wf(),
            InputGroup::push_rel(*old(self), c, *final(self)),
    {
        match self.focused {
            Some(i) => {
                let input = &mut self.inputs[i];
                input.text.push(c);
            },
            None => {},
        }
    }

    /// Remove and return the last character of the focused field.
    pub fn pop(&mut self) -> (r: Option<char>)
        requires
            old(self).wf(),
        ensures
            final(self).wf(),
            InputGroup::pop_rel(*old(self), *final(self), r),
    {
        match self.focused {
            Some(i) => {
                let input = &mut self.inputs[i];
                input.text.pop()
            },
            None => None,
        }
    }

    /// Empty the focused field's text.
    pub fn clear(&mut self)
        requires
            old(self).wf(),
        ensures
            final(self).wf(),
            InputGroup::clear_rel(*old(self), *final(self)),
    {
        match self.focused {
            Some(i) => {
                let input = &mut self.inputs[i];
                input.text.clear();
            },
            None => {},
        }
    }

    /// Move focus to the next field, wrapping around.
    pub fn next(&mut self)
        requires
            old(self).wf(),
        ensures
            final(self).wf(),
            final(self).inputs == old(self).inputs,
            final(self).focused == spec_ring_next(old(self).focused, old(self).inputs.len()),
    {
        self.focused = ring_next(self.focused, self.inputs.len());
    }

    /// Move focus to the previous field, wrapping around.
    pub fn previous(&mut self)
        requires
            old(self).wf(),
        ensures
            final(self).wf(),
            final(self).inputs == old(self).inputs,
            final(self).focused == spec_ring_previous(old(self).focused, old(self).inputs.len()),
    {
        self.focused = ring_previous(self.focused, self.inputs.len());
    }
}

/// The task entry form: four fields — name, work minutes, short-break
/// minutes, long-break minutes — with a focus ring over them.
pub struct TaskInput(pub InputGroup);

impl TaskInput {
    /// Four fields with a valid focus cursor.
    pub open spec fn wf(self) -> bool {
        self.0.wf() && self.0.inputs@.len() == 4
    }

    /// A form as `default` builds it: the four titled fields, all empty,
    /// nothing focused.
    pub open spec fn fresh(self) -> bool {
        &&& self.wf()
        &&& self.0.focused is None
        &&& self.0.inputs@[0].title@ == "Task name"@
        &&& self.0.inputs@[1].title@ == "Work duration (m)"@
        &&& self.0.inputs@[2].title@ == "Short break duration (m)"@
        &&& self.0.inputs@[3].title@ == "Long break duration (m)"@
        &&& forall|i: int| 0 <= i < 4 ==> #[trigger] self.0.inputs@[i].text@.len() == 0
    }
}

impl Default for TaskInput {
    /// The empty form.
    fn default() -> (t: TaskInput)
        ensures
            t.fresh(),
    {
        let mut inputs: Vec<UserInput> = Vec::new();
        inputs.push(UserInput::new("Task name".to_owned()));
        inputs.push(UserInput::new("Work duration (m)".to_owned()));
        inputs.push(UserInput::new("Short break duration (m)".to_owned()));
        inputs.push(UserInput::new("Long break duration (m)".to_owned()));
        TaskInput(InputGroup { inputs, focused: None })
    }
}

impl TaskInput {
    /// Append a character to the focused field.
    pub fn push(&mut self, c: char)
        requires
            old(self).wf(),
        ensures
            final(self).wf(),
            InputGroup::push_rel(old(self).0, c, final(self).0),
    {
        self.0.push(c);
    }

    /// Remove and return the last character of the focused field.
    pub fn pop(&mut self) -> (r: Option<char>)
        requires
            old(self).wf(),
        ensures
            final(self).wf(),
            InputGroup::pop_rel(old(self).0, final(self).0, r),
    {
        self.0.pop()
    }

    /// Empty the focused field's text.
    pub fn clear(&mut self)
        requires
            old(self).wf(),
        ensures
            final(self).wf(),
            InputGroup::clear_rel(old(self).0, final(self).0),
    {
        self.0.clear();
    }

    /// Move focus to the next field.
    pub fn next(&mut self)
        requires
            old(self).wf(),
        ensures
            final(self).wf(),
            final(self).0.inputs == old(self).0.inputs,
            final(self).0.focused == spec_ring_next(old(self).0.focused, old(self).0.inputs.len()),
    {
        self.0.next();
    }

    /// Move focus to the previous field.
    pub fn previous(&mut self)
        requires
            old(self).wf(),
        ensures
            final(self).wf(),
            final(self).0.inputs == old(self).0.inputs,
            final(self).0.focused == spec_ring_previous(
                old(self).0.focused,
                old(self).0.inputs.len(),
            ),
    {
        self.0.previous();
    }

    /// Parse field `i` as minutes, in seconds, falling back to the given
    /// default, and empty the field.
    pub fn parse_secs(&mut self, i: usize, default_secs: u64) -> (r: u64)
        requires
            old(self).wf(),
            i < 4,
        ensures
            final(self).wf(),
            r == spec_field_secs(old(self).0.inputs@[i as int].text@, default_secs),
            final(self).0.focused == old(self).0.focused,
            final(self).0.inputs@.len() == 4,
            forall|j: int|
                0 <= j < 4 && j != i ==> final(self).0.inputs@[j] == old(self).0.inputs@[j],
            final(self).0.inputs@[i as int].title == old(self).0.inputs@[i as int].title,
            final(self).0.inputs@[i as int].text@.len() == 0,
    {
        let parsed = parse_minutes(&self.0.inputs[i].text);
        let r = match parsed {
            Some(v) => v,
            None => default_secs,
        };
        let input = &mut self.0.inputs[i];
        input.text.clear();
        r
    }

    /// What the draft produced by `get_task` holds, given the four field
    /// texts as they stood at submission.
    pub open spec fn draft_rel(pre: TaskInput, t: Task) -> bool {
        &&& t.id is None
        &&& t.pomos_finished == 0
        &&& t.completed is None
        &&& t.work_secs == spec_field_secs(pre.0.inputs@[1].text@, DEFAULT_WORK_SECS)
        &&& t.short_break_secs == spec_field_secs(pre.0.inputs@[2].text@, DEFAULT_SHORT_BREAK_SECS)
        &&& t.long_break_secs == spec_field_secs(pre.0.inputs@[3].text@, DEFAULT_LONG_BREAK_SECS)
        &&& pre.0.inputs@[0].text@.len() == 0 ==> t.desc is None
        &&& pre.0.inputs@[0].text@.len() > 0 ==> (t.desc matches Some(d) && d@
            == pre.0.inputs@[0].text@)
    }

    /// Submit the form: parse the three numeric fields with their defaults,
    /// take the name (no description when empty), and clear every field.
    /// Submission never fails; a malformed duration falls back to its
    /// default.
    pub fn get_task(&mut self) -> (t: Task)
        requires
            old(self).wf(),
        ensures
            final(self).wf(),
            TaskInput::draft_rel(*old(self), t),
            final(self).0.focused == old(self).0.focused,
            final(self).0.inputs@.len() == 4,
            forall|j: int|
                0 <= j < 4 ==> #[trigger] final(self).0.inputs@[j].title == old(
                    self,
                ).0.inputs@[j].title,
            forall|j: int| 0 <= j < 4 ==> #[trigger] final(self).0.inputs@[j].text@.len() == 0,
    {
        let work_secs = self.parse_secs(1, DEFAULT_WORK_SECS);
        let short_break_secs = self.parse_secs(2, DEFAULT_SHORT_BREAK_SECS);
        let long_break_secs = self.parse_secs(3, DEFAULT_LONG_BREAK_SECS);
        let desc = if self.0.inputs[0].text.len() == 0 {
            None
        } else {
            Some(crate::text::chars_to_string(&self.0.inputs[0].text))
        };
        let input = &mut self.0.inputs[0];
        input.text.clear();
        Task {
            id: None,
            desc,
            work_secs,
            short_break_secs,
            long_break_secs,
            pomos_finished: 0,
            completed: None,
        }
    }
}

/// One titled table of tasks with a cursor over its rows.
pub struct TaskTable {
    pub title: String,
    pub tasks: Vec<Task>,
    pub cursor: Option<usize>,
}

impl TaskTable {
    /// The row cursor is absent or a valid row index.
    pub open spec fn wf(self) -> bool {
        ring_wf(self.cursor, self.tasks.len())
    }

    /// A table over the given tasks with nothing selected.
    pub fn new(tasks: Vec<Task>, title: String) -> (t: TaskTable)
        ensures
            t.title == title,
            t.tasks == tasks,
            t.cursor is None,
            t.wf(),
    {
        TaskTable { title, tasks, cursor: None }
    }

    /// Move the row cursor one row down, wrapping around.
    pub fn next(&mut self)
        requires
            old(self).wf(),
        ensures
            final(self).wf(),
            final(self).title == old(self).title,
            final(self).tasks == old(self).tasks,
            final(self).cursor == spec_ring_next(old(self).cursor, old(self).tasks.len()),
    {
        self.cursor = ring_next(self.cursor, self.tasks.len());
    }

    /// Move the row cursor one row up, wrapping around.
    pub fn previous(&mut self)
        requires
            old(self).wf(),
        ensures
            final(self).wf(),
            final(self).title == old(self).title,
            final(self).tasks == old(self).tasks,
            final(self).cursor == spec_ring_previous(old(self).cursor, old(self).tasks.len()),
    {
        self.cursor = ring_previous(self.cursor, self.tasks.len());
    }

    /// The task under the row cursor, if any.
    pub fn selected(&self) -> (r: Option<&Task>)
        requires
            self.wf(),
        ensures
            r is Some <==> self.cursor is Some,
            r matches Some(t) ==> (self.cursor matches Some(j) && *t == self.tasks@[j as int]),
    {
        match self.cursor {
            Some(j) => Some(&self.tasks[j]),
            None => None,
        }
    }
}

/// The sibling task tables of the browser, with a focus ring over the
/// tables; each table keeps its own row cursor.
pub struct TaskTableGroup {
    pub tables: Vec<TaskTable>,
    pub focused: Option<usize>,
}

impl TaskTableGroup {
    /// The table focus is absent or valid, and every table is well formed.
    pub open spec fn wf(self) -> bool {
        &&& ring_wf(self.focused, self.tables.len())
        &&& forall|i: int| 0 <= i < self.tables@.len() ==> (#[trigger] self.tables@[i]).wf()
    }

    /// One table per given group, in order, nothing focused.
    pub fn new(tasks: Vec<(Vec<Task>, String)>) -> (g: TaskTableGroup)
        ensures
            g.wf(),
            g.focused is None,
            g.tables@.len() == tasks@.len(),
            forall|i: int|
                0 <= i < tasks@.len() ==> (#[trigger] g.tables@[i]).tasks == tasks@[i].0
                    && g.tables@[i].title == tasks@[i].1 && g.tables@[i].cursor is None,
    {
        let ghost orig = tasks@;
        let mut rest = tasks;
        let mut tables: Vec<TaskTable> = Vec::new();
        while rest.len() > 0
            invariant
                tables@.len() + rest@.len() == orig.len(),
                rest@ == orig.subrange(tables@.len() as int, orig.len() as int),
                forall|i: int|
                    0 <= i < tables@.len() ==> (#[trigger] tables@[i]).tasks == orig[i].0
                        && tables@[i].title == orig[i].1 && tables@[i].cursor is None,
            decreases rest@.len(),
        {
            let (ts, title) = rest.remove(0);
            tables.push(TaskTable::new(ts, title));
        }
        TaskTableGroup { tables, focused: None }
    }

    /// How moving the table focus changes the group: the leaving table's row
    /// cursor is cleared first, then the focus moves to `target`.
    pub open spec fn focus_move_rel(
        pre: TaskTableGroup,
        post: TaskTableGroup,
        target: Option<usize>,
    ) -> bool {
        &&& post.focused == target
        &&& match pre.focused {
            None => post.tables == pre.tables,
            Some(i) => post.tables@ == pre.tables@.update(
                i as int,
                TaskTable { cursor: None, ..pre.tables@[i as int] },
            ),
        }
    }

    /// Focus the next table, clearing the leaving table's row selection.
    pub fn next(&mut self)
        requires
            old(self).wf(),
        ensures
            final(self).wf(),
            TaskTableGroup::focus_move_rel(
                *old(self),
                *final(self),
                spec_ring_next(old(self).focused, old(self).tables.len()),
            ),
    {
        match self.focused {
            Some(i) => {
                let table = &mut self.tables[i];
                table.cursor = None;
            },
            None => {},
        }
        self.focused = ring_next(self.focused, self.tables.len());
    }

    /// Focus the previous table, clearing the leaving table's row selection.
    pub fn previous(&mut self)
        requires
            old(self).wf(),
        ensures
            final(self).wf(),
            TaskTableGroup::focus_move_rel(
                *old(self),
                *final(self),
                spec_ring_previous(old(self).focused, old(self).tables.len()),
            ),
    {
        match self.focused {
            Some(i) => {
                let table = &mut self.tables[i];
                table.cursor = None;
            },
            None => {},
        }
        self.focused = ring_previous(self.focused, self.tables.len());
    }

    /// How moving the row cursor changes the group: an unfocused group first
    /// focuses its first table, then the focused table's row cursor moves one
    /// step; an empty group is unchanged.
    pub open spec fn row_step_rel(pre: TaskTableGroup, post: TaskTableGroup, forward: bool) -> bool {
        let f = if pre.focused is Some {
            pre.focused
        } else if pre.tables@.len() > 0 {
            Some(0usize)
        } else {
            None
        };
        match f {
            None => post == pre,
            Some(i) => {
                &&& post.focused == f
                &&& post.tables@ == pre.tables@.update(
                    i as int,
                    TaskTable {
                        cursor: if forward {
                            spec_ring_next(
                                pre.tables@[i as int].cursor,
                                pre.tables@[i as int].tasks.len(),
                            )
                        } else {
                            spec_ring_previous(
                                pre.tables@[i as int].cursor,
                                pre.tables@[i as int].tasks.len(),
                            )
                        },
                        ..pre.tables@[i as int]
                    },
                )
            },
        }
    }

    /// Move the row cursor down in the focused table, focusing the first
    /// table when none is focused.
    pub fn next_task(&mut self)
        requires
            old(self).wf(),
        ensures
            final(self).wf(),
            TaskTableGroup::row_step_rel(*old(self), *final(self), true),
    {
        if self.focused.is_none() && self.tables.len() > 0 {
            self.focused = Some(0);
        }
        match self.focused {
            Some(i) => {
                let table = &mut self.tables[i];
                table.next();
            },
            None => {},
        }
    }

    /// Move the row cursor up in the focused table, focusing the first
    /// table when none is focused.
    pub fn prev_task(&mut self)
        requires
            old(self).wf(),
        ensures
            final(self).wf(),
            TaskTableGroup::row_step_rel(*old(self), *final(self), false),
    {
        if self.focused.is_none() && self.tables.len() > 0 {
            self.focused = Some(0);
        }
        match self.focused {
            Some(i) => {
                let table = &mut self.tables[i];
                table.previous();
            },
            None => {},
        }
    }

    /// The task selected in the focused table, if any.
    pub open spec fn spec_selected(self) -> Option<Task> {
        match self.focused {
            Some(i) => if i < self.tables@.len() {
                match self.tables@[i as int].cursor {
                    Some(j) => if j < self.tables@[i as int].tasks@.len() {
                        Some(self.tables@[i as int].tasks@[j as int])
                    } else {
                        None
                    },
                    None => None,
                }
            } else {
                None
            },
            None => None,
        }
    }

    /// The task selected in the focused table, if any.
    pub fn selected(&self) -> (r: Option<&Task>)
        requires
            self.wf(),
        ensures
            r matches Some(t) ==> self.spec_selected() == Some(*t),
            r is None ==> self.spec_selected() is None,
    {
        match self.focused {
            Some(i) => self.tables[i].selected(),
            None => None,
        }
    }

    /// How appending a stored task changes the group: it lands at the end
    /// of the first table; an empty group is unchanged.
    pub open spec fn add_rel(pre: TaskTableGroup, task: Task, post: TaskTableGroup) -> bool {
        &&& pre.tables@.len() == 0 ==> post == pre
        &&& pre.tables@.len() > 0 ==> {
            &&& post.focused == pre.focused
            &&& post.tables@.len() == pre.tables@.len()
            &&& forall|j: int| 1 <= j < pre.tables@.len() ==> post.tables@[j] == pre.tables@[j]
            &&& post.tables@[0].title == pre.tables@[0].title
            &&& post.tables@[0].cursor == pre.tables@[0].cursor
            &&& post.tables@[0].tasks@ == pre.tables@[0].tasks@.push(task)
        }
    }

    /// Append a freshly stored task to the first table.
    pub fn add_task(&mut self, task: Task)
        requires
            old(self).wf(),
        ensures
            final(self).wf(),
            TaskTableGroup::add_rel(*old(self), task, *final(self)),
    {
        if self.tables.len() > 0 {
            let table = &mut self.tables[0];
            table.tasks.push(task);
        }
    }
}

/// Which sub-mode of the browser receives input: filling the form, plain
/// browsing, or reading the help overlay.
pub enum InputState {
    Insert,
    Normal,
    Help,
}

/// A task that was never worked on and is not completed.
pub open spec fn is_unstarted(t: Task) -> bool {
    t.completed is None && t.pomos_finished == 0
}

/// A task with at least one completed cycle that is not completed.
pub open spec fn is_in_progress(t: Task) -> bool {
    t.completed is None && t.pomos_finished > 0
}

/// A task completed within the last day, measured against `now`.
pub open spec fn is_recently_completed(t: Task, now: int) -> bool {
    t.completed matches Some(c) && now - c <= RECENT_SECS
}

/// The bucket predicates as function values, so that every statement about
/// a bucket names the same predicate.
pub open spec fn unstarted_pred() -> spec_fn(Task) -> bool {
    |t: Task| is_unstarted(t)
}

/// See [`unstarted_pred`].
pub open spec fn in_progress_pred() -> spec_fn(Task) -> bool {
    |t: Task| is_in_progress(t)
}

/// See [`unstarted_pred`].
pub open spec fn recently_completed_pred(now: int) -> spec_fn(Task) -> bool {
    |t: Task| is_recently_completed(t, now)
}

/// The task browser: the three task tables, the entry form, the per-day
/// cycle counts handed along for presentation, and the input sub-mode.
pub struct TasksState {
    pub task_tables: TaskTableGroup,
    pub input: TaskInput,
    pub cycles: Vec<(String, usize)>,
    pub input_state: InputState,
}

impl TasksState {
    /// The tables and the form are well formed.
    pub open spec fn wf(self) -> bool {
        self.task_tables.wf() && self.input.wf()
    }

    /// What `new` builds from the stored tasks: the three buckets in order —
    /// unstarted, in progress, completed in the last day — under their fixed
    /// titles, a fresh form, plain browsing mode, and the given cycle counts.
    pub open spec fn fresh_browser(
        ts: TasksState,
        tasks: Seq<Task>,
        cycles: Seq<(String, usize)>,
        now: int,
    ) -> bool {
        &&& ts.wf()
        &&& ts.task_tables.focused is None
        &&& ts.task_tables.tables@.len() == 3
        &&& ts.task_tables.tables@[0].title@ == "New"@
        &&& ts.task_tables.tables@[1].title@ == "In Progress"@
        &&& ts.task_tables.tables@[2].title@ == "Completed in the last day"@
        &&& forall|i: int| 0 <= i < 3 ==> (#[trigger] ts.task_tables.tables@[i]).cursor is None
        &&& ts.task_tables.tables@[0].tasks@ == tasks.filter(unstarted_pred())
        &&& ts.task_tables.tables@[1].tasks@ == tasks.filter(in_progress_pred())
        &&& ts.task_tables.tables@[2].tasks@ == tasks.filter(recently_completed_pred(now))
        &&& ts.input.fresh()
        &&& ts.cycles@ == cycles
        &&& ts.input_state is Normal
    }

    /// Partition the stored tasks into the three browser buckets, keeping
    /// their stored order, and start in plain browsing mode with a fresh
    /// form.
    pub fn new(tasks: Vec<Task>, cycles: Vec<(String, usize)>, now: i64) -> (ts: TasksState)
        ensures
            TasksState::fresh_browser(ts, tasks@, cycles@, now as int),
    {
        let mut unstarted: Vec<Task> = Vec::new();
        let mut in_progress: Vec<Task> = Vec::new();
        let mut recent: Vec<Task> = Vec::new();
        let n = tasks.len();
        let mut k: usize = 0;
        while k < n
            invariant
                n == tasks@.len(),
                k <= n,
                unstarted@ == tasks@.take(k as int).filter(unstarted_pred()),
                in_progress@ == tasks@.take(k as int).filter(in_progress_pred()),
                recent@ == tasks@.take(k as int).filter(recently_completed_pred(now as int)),
            decreases n - k,
        {
            let t = &tasks[k];
            proof {
                reveal_with_fuel(Seq::filter, 2);
                assert(tasks@.take(k as int + 1).drop_last() =~= tasks@.take(k as int));
                assert(tasks@.take(k as int + 1).last() == tasks@[k as int]);
            }
            match t.completed {
                None => {
                    if t.pomos_finished == 0 {
                        unstarted.push(t.duplicate());
                    } else {
                        in_progress.push(t.duplicate());
                    }
                },
                Some(c) => {
                    let recent_hit = match now.checked_sub(c) {
                        Some(d) => d <= RECENT_SECS,
                        None => c > now,
                    };
                    proof {
                        assert(recent_hit == is_recently_completed(tasks@[k as int], now as int));
                    }
                    if recent_hit {
                        recent.push(t.duplicate());
                    }
                },
            }
            k += 1;
        }
        proof {
            assert(tasks@.take(n as int) =~= tasks@);
        }
        let task_tables = TaskTableGroup::new(
            vec![
                (unstarted, "New".to_owned()),
                (in_progress, "In Progress".to_owned()),
                (recent, "Completed in the last day".to_owned()),
            ],
        );
        TasksState {
            task_tables,
            input: TaskInput::default(),
            cycles,
            input_state: InputState::Normal,
        }
    }

    /// The same browser in another input sub-mode.
    pub open spec fn with_mode(self, m: InputState) -> TasksState {
        TasksState { input_state: m, ..self }
    }

    /// Everything but the task tables is untouched.
    pub open spec fn same_but_tables(pre: TasksState, post: TasksState) -> bool {
        &&& post.input == pre.input
        &&& post.cycles == pre.cycles
        &&& post.input_state == pre.input_state
    }

    /// Everything but the entry form is untouched.
    pub open spec fn same_but_input(pre: TasksState, post: TasksState) -> bool {
        &&& post.task_tables == pre.task_tables
        &&& post.cycles == pre.cycles
        &&& post.input_state == pre.input_state
    }

    /// How submission leaves the form: same focus and titles, every text
    /// emptied.
    pub open spec fn submit_rel(pre: TaskInput, post: TaskInput) -> bool {
        &&& post.0.focused == pre.0.focused
        &&& post.0.inputs@.len() == pre.0.inputs@.len()
        &&& forall|j: int|
            0 <= j < pre.0.inputs@.len() ==> (#[trigger] post.0.inputs@[j]).title
                == pre.0.inputs@[j].title
        &&& forall|j: int|
            0 <= j < pre.0.inputs@.len() ==> (#[trigger] post.0.inputs@[j]).text@.len() == 0
    }

    /// How one key moves the browser: the relation between the browser
    /// before, the browser after, the message reported upward, and the
    /// outside work requested.  Which sub-mode receives the key is decided
    /// by `input_state`.
    pub open spec fn browser_key_step(
        pre: TasksState,
        ev: KeyEvent,
        post: TasksState,
        msg: AppMessage,
        act: Action,
    ) -> bool {
        match pre.input_state {
            InputState::Normal => match ev.code {
                KeyCode::Char(c) => if c == '?' {
                    post == pre.with_mode(InputState::Help) && msg is DoNothing && act is Nothing
                } else if c == 'q' {
                    post == pre && msg is Finish && act is Nothing
                } else if c == 'i' {
                    post == (TasksState {
                        task_tables: TaskTableGroup { focused: None, ..pre.task_tables },
                        input: TaskInput(
                            InputGroup {
                                focused: spec_ring_next(
                                    pre.input.0.focused,
                                    pre.input.0.inputs.len(),
                                ),
                                inputs: pre.input.0.inputs,
                            },
                        ),
                        input_state: InputState::Insert,
                        ..pre
                    }) && msg is DoNothing && act is Nothing
                } else if c == 'c' {
                    post == pre && msg is DoNothing && match pre.task_tables.spec_selected() {
                        Some(t) => match t.id {
                            Some(id) => act == (Action::CompleteAndRefresh { id: Some(id) }),
                            None => act is Nothing,
                        },
                        None => act is Nothing,
                    }
                } else if c == 'j' {
                    TasksState::same_but_tables(pre, post) && TaskTableGroup::row_step_rel(
                        pre.task_tables,
                        post.task_tables,
                        true,
                    ) && msg is DoNothing && act is Nothing
                } else if c == 'k' {
                    TasksState::same_but_tables(pre, post) && TaskTableGroup::row_step_rel(
                        pre.task_tables,
                        post.task_tables,
                        false,
                    ) && msg is DoNothing && act is Nothing
                } else if c == 'l' {
                    TasksState::same_but_tables(pre, post) && TaskTableGroup::focus_move_rel(
                        pre.task_tables,
                        post.task_tables,
                        spec_ring_next(pre.task_tables.focused, pre.task_tables.tables.len()),
                    ) && msg is DoNothing && act is Nothing
                } else if c == 'h' {
                    TasksState::same_but_tables(pre, post) && TaskTableGroup::focus_move_rel(
                        pre.task_tables,
                        post.task_tables,
                        spec_ring_previous(pre.task_tables.focused, pre.task_tables.tables.len()),
                    ) && msg is DoNothing && act is Nothing
                } else {
                    post == pre && msg is DoNothing && act is Nothing
                },
                KeyCode::Down => TasksState::same_but_tables(pre, post)
                    && TaskTableGroup::row_step_rel(pre.task_tables, post.task_tables, true)
                    && msg is DoNothing && act is Nothing,
                KeyCode::Up => TasksState::same_but_tables(pre, post)
                    && TaskTableGroup::row_step_rel(pre.task_tables, post.task_tables, false)
                    && msg is DoNothing && act is Nothing,
                KeyCode::Tab => TasksState::same_but_tables(pre, post)
                    && TaskTableGroup::focus_move_rel(
                    pre.task_tables,
                    post.task_tables,
                    spec_ring_next(pre.task_tables.focused, pre.task_tables.tables.len()),
                ) && msg is DoNothing && act is Nothing,
                KeyCode::BackTab => TasksState::same_but_tables(pre, post)
                    && TaskTableGroup::focus_move_rel(
                    pre.task_tables,
                    post.task_tables,
                    spec_ring_previous(pre.task_tables.focused, pre.task_tables.tables.len()),
                ) && msg is DoNothing && act is Nothing,
                KeyCode::Enter => post == pre && act is Nothing && match pre.task_tables.spec_selected() {
                    Some(t) => msg == AppMessage::Begin(t),
                    None => msg is DoNothing,
                },
                _ => post == pre && msg is DoNothing && act is Nothing,
            },
            InputState::Insert => match ev.code {
                KeyCode::Char(c) => if ev.ctrl && c == 'u' {
                    TasksState::same_but_input(pre, post) && InputGroup::clear_rel(
                        pre.input.0,
                        post.input.0,
                    ) && msg is DoNothing && act is Nothing
                } else {
                    TasksState::same_but_input(pre, post) && InputGroup::push_rel(
                        pre.input.0,
                        c,
                        post.input.0,
                    ) && msg is DoNothing && act is Nothing
                },
                KeyCode::Esc => post == (TasksState {
                    input_state: InputState::Normal,
                    input: TaskInput(InputGroup { focused: None, inputs: pre.input.0.inputs }),
                    ..pre
                }) && msg is DoNothing && act is Nothing,
                KeyCode::Tab => TasksState::same_but_input(pre, post) && post.input.0.inputs
                    == pre.input.0.inputs && post.input.0.focused == spec_ring_next(
                    pre.input.0.focused,
                    pre.input.0.inputs.len(),
                ) && msg is DoNothing && act is Nothing,
                KeyCode::BackTab => TasksState::same_but_input(pre, post) && post.input.0.inputs
                    == pre.input.0.inputs && post.input.0.focused == spec_ring_previous(
                    pre.input.0.focused,
                    pre.input.0.inputs.len(),
                ) && msg is DoNothing && act is Nothing,
                KeyCode::Enter => TasksState::same_but_input(pre, post) && TasksState::submit_rel(
                    pre.input,
                    post.input,
                ) && msg is DoNothing && (act matches Action::SaveDraft(t)
                    && TaskInput::draft_rel(pre.input, t)),
                KeyCode::Backspace => TasksState::same_but_input(pre, post)
                    && InputGroup::pop_any_rel(pre.input.0, post.input.0) && msg is DoNothing
                    && act is Nothing,
                _ => post == pre && msg is DoNothing && act is Nothing,
            },
            InputState::Help => match ev.code {
                KeyCode::Char(c) => if c == '?' {
                    post == pre.with_mode(InputState::Normal) && msg is DoNothing && act is Nothing
                } else {
                    post == pre && msg is DoNothing && act is Nothing
                },
                _ => post == pre && msg is DoNothing && act is Nothing,
            },
        }
    }

    /// Handle one key in the browser: navigation, task completion and
    /// selection in plain browsing; text entry and submission in the form;
    /// and the help overlay.
    pub fn handle_key_event(&mut self, ev: KeyEvent) -> (r: (AppMessage, Action))
        requires
            old(self).wf(),
        ensures
            final(self).wf(),
            TasksState::browser_key_step(*old(self), ev, *final(self), r.0, r.1),
    {
        match self.input_state {
            InputState::Normal => match ev.code {
                KeyCode::Char(c) => if c == '?' {
                    self.input_state = InputState::Help;
                    (AppMessage::DoNothing, Action::Nothing)
                } else if c == 'q' {
                    (AppMessage::Finish, Action::Nothing)
                } else if c == 'i' {
                    self.task_tables.focused = None;
                    self.input_state = InputState::Insert;
                    self.input.next();
                    (AppMessage::DoNothing, Action::Nothing)
                } else if c == 'c' {
                    let act = match self.task_tables.selected() {
                        Some(t) => match t.id {
                            Some(id) => Action::CompleteAndRefresh { id: Some(id) },
                            None => Action::Nothing,
                        },
                        None => Action::Nothing,
                    };
                    (AppMessage::DoNothing, act)
                } else if c == 'j' {
                    self.task_tables.next_task();
                    (AppMessage::DoNothing, Action::Nothing)
                } else if c == 'k' {
                    self.task_tables.prev_task();
                    (AppMessage::DoNothing, Action::Nothing)
                } else if c == 'l' {
                    self.task_tables.next();
                    (AppMessage::DoNothing, Action::Nothing)
                } else if c == 'h' {
                    self.task_tables.previous();
                    (AppMessage::DoNothing, Action::Nothing)
                } else {
                    (AppMessage::DoNothing, Action::Nothing)
                },
                KeyCode::Down => {
                    self.task_tables.next_task();
                    (AppMessage::DoNothing, Action::Nothing)
                },
                KeyCode::Up => {
                    self.task_tables.prev_task();
                    (AppMessage::DoNothing, Action::Nothing)
                },
                KeyCode::Tab => {
                    self.task_tables.next();
                    (AppMessage::DoNothing, Action::Nothing)
                },
                KeyCode::BackTab => {
                    self.task_tables.previous();
                    (AppMessage::DoNothing, Action::Nothing)
                },
                KeyCode::Enter => {
                    let msg = match self.task_tables.selected() {
                        Some(t) => AppMessage::Begin(t.duplicate()),
                        None => AppMessage::DoNothing,
                    };
                    (msg, Action::Nothing)
                },
                _ => (AppMessage::DoNothing, Action::Nothing),
            },
            InputState::Insert => match ev.code {
                KeyCode::Char(c) => {
                    self.input.push(c);
                    if ev.ctrl && c == 'u' {
                        self.input.clear();
                    }
                    (AppMessage::DoNothing, Action::Nothing)
                },
                KeyCode::Esc => {
                    self.input_state = InputState::Normal;
                    self.input.0.focused = None;
                    (AppMessage::DoNothing, Action::Nothing)
                },
                KeyCode::Tab => {
                    self.input.next();
                    (AppMessage::DoNothing, Action::Nothing)
                },
                KeyCode::BackTab => {
                    self.input.previous();
                    (AppMessage::DoNothing, Action::Nothing)
                },
                KeyCode::Enter => {
                    let t = self.input.get_task();
                    (AppMessage::DoNothing, Action::SaveDraft(t))
                },
                KeyCode::Backspace => {
                    self.input.pop();
                    (AppMessage::DoNothing, Action::Nothing)
                },
                _ => (AppMessage::DoNothing, Action::Nothing),
            },
            InputState::Help => match ev.code {
                KeyCode::Char(c) => {
                    if c == '?' {
                        self.input_state = InputState::Normal;
                    }
                    (AppMessage::DoNothing, Action::Nothing)
                },
                _ => (AppMessage::DoNothing, Action::Nothing),
            },
        }
    }
}

} // verus!
