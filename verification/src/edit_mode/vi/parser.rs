//! The Vi normal-mode grammar: `[count] [operator] [count] [motion]`,
//! and how a parsed sequence becomes editor events.
use vstd::prelude::*;

use super::command::{
    command_motion_options, command_options, command_parse, parse_command, previous_view,
    whole_line_key, Command,
};
use super::motion::{
    is_char_search, motion_options, motion_parse, motion_target, parse_motion, Motion,
};
use super::{Vi, ViMode};
use crate::enums::{
    event_view, events_view, lemma_events_view_len, lemma_events_view_push, EditCommand, EventView,
    MotionTarget, ReedlineEvent,
};
use crate::text::is_ascii_digit_char;

verus! {

/// The characters typed so far, read from the front.
pub struct CharStream {
    chars: Vec<char>,
    pos: usize,
}

impl View for CharStream {
    type V = Seq<char>;

    /// The characters not read yet.
    closed spec fn view(&self) -> Seq<char> {
        self.chars@.skip(self.pos as int)
    }
}

impl CharStream {
    pub closed spec fn wf(&self) -> bool {
        self.pos <= self.chars@.len() <= usize::MAX
    }

    /// What is left to read fits in memory.
    pub proof fn lemma_len(&self)
        requires
            self.wf(),
        ensures
            self@.len() <= usize::MAX,
    {
    }

    /// A stream over `chars`.
    pub fn new(chars: Vec<char>) -> (r: Self)
        ensures
            r.wf(),
            r@ == chars@,
    {
        let _n = chars.len();
        let r = CharStream { chars, pos: 0 };
        assert(r.chars@.skip(0) == r.chars@);
        r
    }

    /// A stream over a copy of `chars`.
    pub fn from_slice(chars: &[char]) -> (r: Self)
        ensures
            r.wf(),
            r@ == chars@,
    {
        let mut v: Vec<char> = Vec::new();
        let mut i: usize = 0;
        while i < chars.len()
            invariant
                i <= chars@.len(),
                v@ == chars@.take(i as int),
            decreases chars.len() - i,
        {
            v.push(chars[i]);
            i = i + 1;
        }
        assert(chars@.take(chars@.len() as int) == chars@);
        Self::new(v)
    }

    /// The next character, without reading it.
    pub fn peek(&self) -> (r: Option<char>)
        requires
            self.wf(),
        ensures
            r == (if self@.len() > 0 {
                Some(self@[0])
            } else {
                None::<char>
            }),
    {
        if self.pos < self.chars.len() {
            Some(self.chars[self.pos])
        } else {
            None
        }
    }

    /// Reads the next character.
    pub fn next(&mut self) -> (r: Option<char>)
        requires
            old(self).wf(),
        ensures
            final(self).wf(),
            r == (if old(self)@.len() > 0 {
                Some(old(self)@[0])
            } else {
                None::<char>
            }),
            final(self)@ == (if old(self)@.len() > 0 {
                old(self)@.skip(1)
            } else {
                old(self)@
            }),
    {
        if self.pos < self.chars.len() {
            let c = self.chars[self.pos];
            proof {
                assert(self.chars@.skip(self.pos as int).skip(1) == self.chars@.skip(
                    self.pos + 1,
                ));
            }
            self.pos = self.pos + 1;
            Some(c)
        } else {
            None
        }
    }
}

/// What a Vi command or motion produces before the multiplier is
/// applied: an event, an edit, or nothing yet.
#[derive(Debug)]
pub enum ReedlineOption {
    Event(ReedlineEvent),
    Edit(EditCommand),
    Incomplete,
}

/// The mathematical value of a [`ReedlineOption`].
pub enum OptionView {
    Event(EventView),
    Edit(EditCommand),
    Incomplete,
}

impl View for ReedlineOption {
    type V = OptionView;

    open spec fn view(&self) -> OptionView {
        match self {
            ReedlineOption::Event(e) => OptionView::Event(e@),
            ReedlineOption::Edit(c) => OptionView::Edit(*c),
            ReedlineOption::Incomplete => OptionView::Incomplete,
        }
    }
}

/// The views of a sequence of options.
pub open spec fn options_of(s: Seq<ReedlineOption>) -> Seq<OptionView> {
    s.map_values(|o: ReedlineOption| o@)
}

/// The event an option stands for, if any.
pub open spec fn option_event(o: OptionView) -> Option<EventView> {
    match o {
        OptionView::Event(e) => Some(e),
        OptionView::Edit(c) => Some(EventView::Edit(seq![c])),
        OptionView::Incomplete => None,
    }
}

/// The events of a sequence of options, incomplete ones left out.
pub open spec fn option_events(s: Seq<OptionView>) -> Seq<EventView>
    decreases s.len(),
{
    if s.len() == 0 {
        Seq::empty()
    } else {
        let rest = option_events(s.drop_last());
        match option_event(s.last()) {
            Some(e) => rest.push(e),
            None => rest,
        }
    }
}

/// `s` repeated `n` times.
pub open spec fn repeat_seq<A>(s: Seq<A>, n: nat) -> Seq<A>
    decreases n,
{
    if n == 0 {
        Seq::empty()
    } else {
        repeat_seq(s, (n - 1) as nat) + s
    }
}

proof fn lemma_option_events_add(a: Seq<OptionView>, b: Seq<OptionView>)
    ensures
        option_events(a + b) == option_events(a) + option_events(b),
    decreases b.len(),
{
    if b.len() == 0 {
        assert(a + b == a);
        assert(option_events(a) + option_events(b) == option_events(a));
    } else {
        lemma_option_events_add(a, b.drop_last());
        assert((a + b).drop_last() == a + b.drop_last());
        assert((a + b).last() == b.last());
    }
}

impl ReedlineOption {
    /// A copy of the option.
    pub fn duplicate(&self) -> (r: ReedlineOption)
        ensures
            r@ == self@,
    {
        match self {
            ReedlineOption::Event(e) => ReedlineOption::Event(e.duplicate()),
            ReedlineOption::Edit(c) => ReedlineOption::Edit(c.duplicate()),
            ReedlineOption::Incomplete => ReedlineOption::Incomplete,
        }
    }

    /// The event this option stands for; an incomplete one stands for
    /// none.
    pub fn into_reedline_event(self) -> (r: Option<ReedlineEvent>)
        ensures
            match option_event(self@) {
                Some(e) => r is Some && r->0@ == e,
                None => r is None,
            },
    {
        match self {
            ReedlineOption::Event(event) => Some(event),
            ReedlineOption::Edit(edit) => {
                let v = vec![edit];
                assert(v@ == seq![edit]);
                Some(ReedlineEvent::Edit(v))
            },
            ReedlineOption::Incomplete => None,
        }
    }
}

/// The outcome of parsing one part of a sequence.
#[derive(Clone, Copy, Debug, PartialEq, Eq, Structural)]
pub enum ParseResult<T> {
    Valid(T),
    Incomplete,
    Invalid,
}

impl<T> ParseResult<T> {
    pub fn is_invalid(&self) -> (r: bool)
        ensures
            r == (*self is Invalid),
    {
        match self {
            ParseResult::Valid(_) => false,
            ParseResult::Incomplete => false,
            ParseResult::Invalid => true,
        }
    }
}

/// A parsed normal-mode sequence: `[multiplier] [command] [count]
/// [motion]`.
#[derive(Clone, Copy, Debug, PartialEq, Eq, Structural)]
pub struct ParsedViSequence {
    pub multiplier: Option<usize>,
    pub command: Option<Command>,
    pub count: Option<usize>,
    pub motion: ParseResult<Motion>,
}

// ── Numbers ──────────────────────────────────────────────────────────
/// How many decimal digits `s` starts with.
pub open spec fn digit_run(s: Seq<char>) -> nat
    decreases s.len(),
{
    if s.len() > 0 && is_ascii_digit_char(s[0]) {
        1 + digit_run(s.drop_first())
    } else {
        0
    }
}

pub open spec fn digit_value(c: char) -> int {
    (c as u32) - ('0' as u32)
}

/// The value of a string of decimal digits.
pub open spec fn decimal_value(t: Seq<char>) -> int
    decreases t.len(),
{
    if t.len() == 0 {
        0
    } else {
        decimal_value(t.drop_last()) * 10 + digit_value(t.last())
    }
}

/// A count starts with a digit other than `0` (a leading `0` is the
/// line-start motion).
pub open spec fn starts_number(s: Seq<char>) -> bool {
    s.len() > 0 && s[0] != '0' && is_ascii_digit_char(s[0])
}

/// The count at the front of `s`, if any, and how many characters it
/// takes.
pub open spec fn number_parse(s: Seq<char>) -> (Option<int>, nat) {
    if starts_number(s) {
        (Some(decimal_value(s.take(digit_run(s) as int))), digit_run(s))
    } else {
        (None, 0)
    }
}

/// The count at the front of `s`, if any, fits in a `usize`.
pub open spec fn number_fits(s: Seq<char>) -> bool {
    number_parse(s).0 matches Some(v) ==> v <= usize::MAX
}

pub open spec fn as_count(o: Option<int>) -> Option<usize> {
    match o {
        Some(v) => Some(v as usize),
        None => None,
    }
}

proof fn lemma_digit_run(s: Seq<char>)
    ensures
        digit_run(s) <= s.len(),
        forall|i: int| 0 <= i < digit_run(s) ==> is_ascii_digit_char(#[trigger] s[i]),
        digit_run(s) < s.len() ==> !is_ascii_digit_char(s[digit_run(s) as int]),
    decreases s.len(),
{
    if s.len() > 0 && is_ascii_digit_char(s[0]) {
        lemma_digit_run(s.drop_first());
        assert forall|i: int| 0 <= i < digit_run(s) implies is_ascii_digit_char(#[trigger] s[i]) by {
            if i > 0 {
                assert(s[i] == s.drop_first()[i - 1]);
            }
        }
        if digit_run(s) < s.len() {
            assert(s[digit_run(s) as int] == s.drop_first()[digit_run(s) - 1]);
        }
    }
}

proof fn lemma_decimal_monotone(t: Seq<char>, i: int)
    requires
        0 <= i <= t.len(),
        forall|k: int| 0 <= k < t.len() ==> is_ascii_digit_char(#[trigger] t[k]),
    ensures
        0 <= decimal_value(t.take(i)) <= decimal_value(t),
    decreases t.len() - i,
{
    lemma_decimal_nonneg(t);
    if i < t.len() {
        let u = t.drop_last();
        assert forall|k: int| 0 <= k < u.len() implies is_ascii_digit_char(#[trigger] u[k]) by {
            assert(u[k] == t[k]);
        }
        lemma_decimal_monotone(u, i);
        assert(u.take(i) == t.take(i));
        lemma_decimal_nonneg(u);
        assert(is_ascii_digit_char(t[t.len() - 1]));
    } else {
        assert(t.take(i) == t);
    }
}

proof fn lemma_decimal_nonneg(t: Seq<char>)
    requires
        forall|k: int| 0 <= k < t.len() ==> is_ascii_digit_char(#[trigger] t[k]),
    ensures
        decimal_value(t) >= 0,
    decreases t.len(),
{
    if t.len() > 0 {
        let u = t.drop_last();
        assert forall|k: int| 0 <= k < u.len() implies is_ascii_digit_char(#[trigger] u[k]) by {
            assert(u[k] == t[k]);
        }
        lemma_decimal_nonneg(u);
        assert(is_ascii_digit_char(t[t.len() - 1]));
    }
}

/// Reads a count: a run of digits that does not start with `0`.
pub fn parse_number(input: &mut CharStream) -> (r: Option<usize>)
    requires
        old(input).wf(),
        number_fits(old(input)@),
    ensures
        final(input).wf(),
        r == as_count(number_parse(old(input)@).0),
        final(input)@ == old(input)@.skip(number_parse(old(input)@).1 as int),
{
    let ghost s = input@;
    proof {
        assert(s.skip(0) == s);
        lemma_digit_run(s);
    }
    match input.peek() {
        Some(c) => {
            if c == '0' || !('0' <= c && c <= '9') {
                return None;
            }
        },
        None => {
            return None;
        },
    }
    let ghost run = digit_run(s) as int;
    proof {
        input.lemma_len();
    }
    proof {
        assert forall|k: int| 0 <= k < s.take(run).len() implies is_ascii_digit_char(
            #[trigger] s.take(run)[k],
        ) by {
            assert(s.take(run)[k] == s[k]);
        }
    }
    let mut count: usize = 0;
    let mut i: usize = 0;
    loop
        invariant
            input.wf(),
            0 <= i <= run,
            run == digit_run(s),
            run <= s.len(),
            s.len() <= usize::MAX,
            input@ == s.skip(i as int),
            count as int == decimal_value(s.take(i as int)),
            decimal_value(s.take(run)) <= usize::MAX,
            forall|k: int| 0 <= k < run ==> is_ascii_digit_char(#[trigger] s[k]),
            run < s.len() ==> !is_ascii_digit_char(s[run]),
            forall|k: int| 0 <= k < s.take(run).len() ==> is_ascii_digit_char(
                #[trigger] s.take(run)[k],
            ),
        ensures
            i == run,
            input@ == s.skip(run),
            count as int == decimal_value(s.take(run)),
        decreases run - i,
    {
        let c = match input.peek() {
            Some(c) => c,
            None => {
                break;
            },
        };
        if !('0' <= c && c <= '9') {
            break;
        }
        proof {
            assert(s.skip(i as int)[0] == s[i as int]);
        }
        let _ = input.next();
        proof {
            assert(s.skip(i as int).skip(1) == s.skip(i + 1));
            assert(s.take(i + 1).drop_last() == s.take(i as int));
            assert(s.take(i + 1).last() == s[i as int]);
            lemma_decimal_monotone(s.take(run), i + 1);
            assert(s.take(run).take(i + 1) == s.take(i + 1));
        }
        let d: usize = ((c as u32) - ('0' as u32)) as usize;
        count = count * 10 + d;
        i = i + 1;
    }
    Some(count)
}


/// Whether the count at the front of `input`, if any, fits in a `usize`.
pub fn number_fits_check(input: &CharStream) -> (r: bool)
    requires
        input.wf(),
    ensures
        r == number_fits(input@),
{
    let ghost s = input@;
    proof {
        lemma_digit_run(s);
        input.lemma_len();
    }
    match input.peek() {
        Some(c) => {
            if c == '0' || !('0' <= c && c <= '9') {
                return true;
            }
        },
        None => {
            return true;
        },
    }
    let ghost run = digit_run(s) as int;
    proof {
        assert forall|k: int| 0 <= k < s.take(run).len() implies is_ascii_digit_char(
            #[trigger] s.take(run)[k],
        ) by {
            assert(s.take(run)[k] == s[k]);
        }
    }
    let mut value: usize = 0;
    let mut j: usize = input.pos;
    while j < input.chars.len() && '0' <= input.chars[j] && input.chars[j] <= '9'
        invariant
            input.wf(),
            s == input.chars@.skip(input.pos as int),
            input.pos <= j <= input.chars@.len(),
            starts_number(s),
            run == digit_run(s),
            run <= s.len(),
            j - input.pos <= run,
            value as int == decimal_value(s.take(j - input.pos)),
            forall|k: int| 0 <= k < run ==> is_ascii_digit_char(#[trigger] s[k]),
            run < s.len() ==> !is_ascii_digit_char(s[run]),
            forall|k: int| 0 <= k < s.take(run).len() ==> is_ascii_digit_char(
                #[trigger] s.take(run)[k],
            ),
        decreases input.chars.len() - j,
    {
        let ghost i = j - input.pos;
        proof {
            assert(s[i] == input.chars@[j as int]);
            assert(i < run);
            assert(s.take(i + 1).drop_last() == s.take(i));
            assert(s.take(i + 1).last() == s[i]);
            assert(s.take(run).take(i + 1) == s.take(i + 1));
            lemma_decimal_monotone(s.take(run), i + 1);
        }
        let d: usize = ((input.chars[j] as u32) - ('0' as u32)) as usize;
        proof {
            assert(d as int == digit_value(s[i]));
            assert(decimal_value(s.take(i + 1)) == value * 10 + d);
            assert(number_parse(s).0 == Some(decimal_value(s.take(run))));
        }
        match value.checked_mul(10) {
            Some(v10) => match v10.checked_add(d) {
                Some(v) => {
                    value = v;
                },
                None => {
                    proof {
                        assert(decimal_value(s.take(run)) > usize::MAX);
                    }
                    return false;
                },
            },
            None => {
                proof {
                    assert(value * 10 + d > usize::MAX);
                    assert(decimal_value(s.take(run)) > usize::MAX);
                }
                return false;
            },
        }
        j = j + 1;
    }
    proof {
        let i = j - input.pos;
        if i < run {
            assert(s[i] == input.chars@[j as int]);
        }
        assert(i == run);
    }
    true
}

/// Whether both counts of the sequence at the front of `cache` fit in a
/// `usize`.
pub fn counts_fit_check(mode: ViMode, cache: &Vec<char>) -> (r: bool)
    ensures
        r == counts_fit(mode, cache@),
{
    let mut input = CharStream::from_slice(cache.as_slice());
    if !number_fits_check(&input) {
        return false;
    }
    let _ = parse_number(&mut input);
    let _ = parse_command(mode, &mut input);
    number_fits_check(&input)
}

// ── Whole sequences ──────────────────────────────────────────────────
/// The input left after each part of a sequence is read: the count, the
/// command and the second count.
pub open spec fn after_multiplier(s: Seq<char>) -> Seq<char> {
    s.skip(number_parse(s).1 as int)
}

pub open spec fn after_command(mode: ViMode, s: Seq<char>) -> Seq<char> {
    let s1 = after_multiplier(s);
    s1.skip(command_parse(mode, s1).1 as int)
}

pub open spec fn after_count(mode: ViMode, s: Seq<char>) -> Seq<char> {
    let s2 = after_command(mode, s);
    s2.skip(number_parse(s2).1 as int)
}

/// The sequence at the front of `s`, parsed in `mode`.
pub open spec fn parsed_sequence(mode: ViMode, s: Seq<char>) -> ParsedViSequence {
    let c = command_parse(mode, after_multiplier(s)).0;
    ParsedViSequence {
        multiplier: as_count(number_parse(s).0),
        command: c,
        count: as_count(number_parse(after_command(mode, s)).0),
        motion: motion_parse(after_count(mode, s), whole_line_key(c)).0,
    }
}

/// The input left after the sequence is read.
pub open spec fn after_sequence(mode: ViMode, s: Seq<char>) -> Seq<char> {
    let s3 = after_count(mode, s);
    let c = command_parse(mode, after_multiplier(s)).0;
    s3.skip(motion_parse(s3, whole_line_key(c)).1 as int)
}

/// Both counts of the sequence at the front of `s` fit in a `usize`.
pub open spec fn counts_fit(mode: ViMode, s: Seq<char>) -> bool {
    number_fits(s) && number_fits(after_command(mode, s))
}

/// Reads a whole sequence from `input`.
pub fn parse(mode: ViMode, input: &mut CharStream) -> (r: ParsedViSequence)
    requires
        old(input).wf(),
        counts_fit(mode, old(input)@),
    ensures
        final(input).wf(),
        r == parsed_sequence(mode, old(input)@),
        final(input)@ == after_sequence(mode, old(input)@),
{
    let multiplier = parse_number(input);
    let command = parse_command(mode, input);
    let count = parse_number(input);
    let command_char = match command {
        Some(c) => c.whole_line_char(),
        None => None,
    };
    let motion = parse_motion(input, command_char);
    ParsedViSequence { multiplier, command, count, motion }
}

pub open spec fn count_or_one(o: Option<usize>) -> int {
    match o {
        Some(v) => v as int,
        None => 1,
    }
}

/// The number of times the sequence is repeated: the product of its two
/// counts, each 1 when absent.
pub open spec fn total_repeats(p: ParsedViSequence) -> int {
    count_or_one(p.multiplier) * count_or_one(p.count)
}

/// The event of `raw` repeated `n` times: nothing when there is no event
/// or one of them is nothing, else all of them in order.
pub open spec fn repeated_event(raw: Option<Seq<OptionView>>, n: nat) -> EventView {
    match raw {
        None => EventView::Nothing,
        Some(s) => {
            let ev = option_events(repeat_seq(s, n));
            if ev.len() == 0 || ev.contains(EventView::Nothing) {
                EventView::Nothing
            } else {
                EventView::Multiple(ev)
            }
        },
    }
}

/// Whether the sequence is complete in `mode`.
pub open spec fn sequence_complete(p: ParsedViSequence, mode: ViMode) -> bool {
    match p.command {
        None => p.motion is Valid,
        Some(Command::Incomplete) => false,
        Some(c) => match p.motion {
            ParseResult::Valid(_) => true,
            ParseResult::Incomplete => !(c == Command::Delete || c == Command::Change || c
                == Command::Yank) || mode == ViMode::Visual,
            ParseResult::Invalid => false,
        },
    }
}

/// The commands that enter insert mode when typed alone.
pub open spec fn enters_insert(c: Command) -> bool {
    c == Command::EnterViInsert || c == Command::EnterViAppend || c == Command::NewlineAbove || c
        == Command::NewlineBelow || c == Command::ChangeToLineEnd || c == Command::AppendToEnd || c
        == Command::PrependToStart || c == Command::RewriteCurrentLine || c
        == Command::SubstituteCharWithInsert || c == Command::HistorySearch
}

/// The mode a complete sequence leaves the editor in, when it changes.
pub open spec fn mode_after(p: ParsedViSequence, mode: ViMode) -> Option<ViMode> {
    match p.command {
        None => None,
        Some(c) => {
            let incomplete = p.motion is Incomplete;
            let valid = p.motion is Valid;
            if (incomplete && enters_insert(c)) || (c == Command::Change && valid) {
                Some(ViMode::Insert)
            } else if c == Command::Change && incomplete && mode == ViMode::Visual {
                Some(ViMode::Insert)
            } else if incomplete && (c == Command::Delete || c == Command::Lowercase || c
                == Command::Uppercase || c == Command::Switchcase) && mode == ViMode::Visual {
                Some(ViMode::Normal)
            } else if c is ReplaceChar && mode == ViMode::Visual {
                Some(ViMode::Normal)
            } else if c is ChangeTextObject {
                Some(ViMode::Insert)
            } else if (incomplete || valid) && (c == Command::Delete || c == Command::DeleteChar
                || c == Command::DeleteToEnd || c == Command::Yank) {
                Some(ViMode::Normal)
            } else {
                None
            }
        },
    }
}

/// Which arm of the lowering a sequence takes: a command alone (1), a
/// command with a motion (2), a motion alone (3), or none (0).
pub open spec fn lowering_arm(p: ParsedViSequence) -> int {
    match (p.command, p.count, p.motion) {
        (Some(_), None, ParseResult::Incomplete) => 1,
        (Some(_), _, ParseResult::Valid(_)) => 2,
        (None, _, ParseResult::Valid(_)) => 3,
        _ => 0,
    }
}

/// The options a sequence lowers to before the repeats are applied.
pub open spec fn sequence_options(p: ParsedViSequence, visual: bool, previous: Option<EventView>, last: Option<MotionTarget>) -> Option<Seq<OptionView>> {
    match (p.command, p.count, p.motion) {
        (Some(c), None, ParseResult::Incomplete) => Some(command_options(c, visual, previous)),
        (Some(c), _, ParseResult::Valid(m)) => command_motion_options(c, m, last),
        (None, _, ParseResult::Valid(m)) => Some(motion_options(m, visual, last)),
        _ => None,
    }
}

/// The event a sequence produces.
pub open spec fn sequence_event(p: ParsedViSequence, visual: bool, previous: Option<EventView>, last: Option<MotionTarget>) -> EventView {
    if lowering_arm(p) == 0 {
        EventView::Nothing
    } else {
        repeated_event(sequence_options(p, visual, previous, last), total_repeats(p) as nat)
    }
}

/// The last character search after the sequence runs.
pub open spec fn search_after(p: ParsedViSequence, last: Option<MotionTarget>) -> Option<MotionTarget> {
    match (p.command, p.count, p.motion) {
        (Some(c), _, ParseResult::Valid(m)) => if (c == Command::Delete || c == Command::Change || c
            == Command::Yank) && is_char_search(m) {
            motion_target(m)
        } else {
            last
        },
        (None, _, ParseResult::Valid(m)) => if is_char_search(m) {
            motion_target(m)
        } else {
            last
        },
        _ => last,
    }
}

/// Whether the sequence's event is recorded for `.`: a command's
/// non-empty event, unless the command is `.` itself.
pub open spec fn records(p: ParsedViSequence, ev: EventView) -> bool {
    (lowering_arm(p) == 1 || lowering_arm(p) == 2) && ev != EventView::Nothing && p.command
        != Some(Command::RepeatLastAction)
}

proof fn lemma_repeat_step<A>(s: Seq<A>, k: nat)
    ensures
        repeat_seq(s, k + 1) == repeat_seq(s, k) + s,
{
}

/// The length of `s` repeated `n` times, and that it holds `x` exactly
/// when `s` does and `n` is not zero.
proof fn lemma_repeat_len_contains<A>(s: Seq<A>, n: nat, x: A)
    ensures
        repeat_seq(s, n).len() == n * s.len(),
        repeat_seq(s, n).contains(x) == (n > 0 && s.contains(x)),
    decreases n,
{
    if n > 0 {
        let prev = repeat_seq(s, (n - 1) as nat);
        lemma_repeat_len_contains(s, (n - 1) as nat, x);
        let whole = prev + s;
        assert(whole.len() == n * s.len()) by (nonlinear_arith)
            requires
                whole.len() == prev.len() + s.len(),
                prev.len() == (n - 1) * s.len(),
        ;
        if whole.contains(x) {
            let i = choose|i: int| 0 <= i < whole.len() && whole[i] == x;
            if i >= prev.len() {
                assert(s[i - prev.len()] == x);
            } else {
                assert(prev[i] == x);
            }
        }
        if prev.contains(x) {
            let i = choose|i: int| 0 <= i < prev.len() && prev[i] == x;
            assert(whole[i] == x);
        }
        if s.contains(x) {
            let i = choose|i: int| 0 <= i < s.len() && s[i] == x;
            assert(whole[prev.len() + i] == x);
        }
    }
}

/// Repeating options repeats the events they stand for.
pub proof fn option_events_repeat(s: Seq<OptionView>, n: nat)
    ensures
        option_events(repeat_seq(s, n)) == repeat_seq(option_events(s), n),
    decreases n,
{
    if n > 0 {
        option_events_repeat(s, (n - 1) as nat);
        lemma_option_events_add(repeat_seq(s, (n - 1) as nat), s);
    }
}

/// A count applied to the options of a parsed sequence gives their events
/// repeated that many times, in order, as one group; it gives no event
/// where there are no options, where the count is zero, where the options
/// stand for no event, or where one of them stands for no event.
pub proof fn multiplier_repeats_events(raw: Option<Seq<OptionView>>, n: nat)
    ensures
        match raw {
            None => repeated_event(raw, n) == EventView::Nothing,
            Some(s) => {
                let e = option_events(s);
                repeated_event(raw, n) == if n == 0 || e.len() == 0 || e.contains(
                    EventView::Nothing,
                ) {
                    EventView::Nothing
                } else {
                    EventView::Multiple(repeat_seq(e, n))
                }
            },
        },
{
    if let Some(s) = raw {
        let e = option_events(s);
        option_events_repeat(s, n);
        lemma_repeat_len_contains(e, n, EventView::Nothing);
        if n > 0 && e.len() > 0 {
            assert(n * e.len() > 0) by (nonlinear_arith)
                requires
                    n > 0,
                    e.len() > 0,
            ;
        }
    }
}

impl ParsedViSequence {
    /// Whether no part of the sequence is invalid.
    pub fn is_valid(&self) -> (r: bool)
        ensures
            r == !(self.motion is Invalid),
    {
        !self.motion.is_invalid()
    }

    /// Whether the sequence is complete in normal or visual mode.
    pub fn is_complete(&self, mode: ViMode) -> (r: bool)
        requires
            mode == ViMode::Normal || mode == ViMode::Visual,
        ensures
            r == sequence_complete(*self, mode),
    {
        match (&self.command, &self.motion) {
            (None, ParseResult::Valid(_)) => true,
            (Some(Command::Incomplete), _) => false,
            (Some(cmd), ParseResult::Incomplete) if !cmd.requires_motion() || mode
                == ViMode::Visual => true,
            (Some(_), ParseResult::Valid(_)) => true,
            _ => false,
        }
    }

    /// The product of both counts, each 1 when absent.
    pub fn total_multiplier(&self) -> (r: usize)
        requires
            total_repeats(*self) <= usize::MAX,
        ensures
            r == total_repeats(*self),
    {
        let m: usize = match self.multiplier {
            Some(v) => v,
            None => 1,
        };
        let c: usize = match self.count {
            Some(v) => v,
            None => 1,
        };
        m * c
    }

    /// The events of `raw_events`, repeated as many times as the counts
    /// say.
    pub fn apply_multiplier(&self, raw_events: Option<Vec<ReedlineOption>>) -> (r: ReedlineEvent)
        requires
            total_repeats(*self) <= usize::MAX,
        ensures
            r@ == repeated_event(
                match raw_events {
                    Some(v) => Some(options_of(v@)),
                    None => None,
                },
                total_repeats(*self) as nat,
            ),
    {
        let raw = match raw_events {
            Some(raw) => raw,
            None => {
                return ReedlineEvent::Nothing;
            },
        };
        let ghost views = options_of(raw@);
        let n = self.total_multiplier();
        let mut events: Vec<ReedlineEvent> = Vec::new();
        let mut k: usize = 0;
        while k < n
            invariant
                k <= n,
                views == options_of(raw@),
                events_view(events@) == option_events(repeat_seq(views, k as nat)),
            decreases n - k,
        {
            let mut j: usize = 0;
            while j < raw.len()
                invariant
                    j <= raw@.len(),
                    views == options_of(raw@),
                    events_view(events@) == option_events(
                        repeat_seq(views, k as nat) + views.take(j as int),
                    ),
                decreases raw.len() - j,
            {
                let ghost before = events@;
                let ghost prefix = repeat_seq(views, k as nat) + views.take(j as int);
                proof {
                    assert((repeat_seq(views, k as nat) + views.take(j + 1)).drop_last() == prefix);
                    assert((repeat_seq(views, k as nat) + views.take(j + 1)).last() == views[j as int]);
                }
                match raw[j].duplicate().into_reedline_event() {
                    Some(e) => {
                        events.push(e);
                        proof {
                            lemma_events_view_push(before, e);
                        }
                    },
                    None => {},
                }
                j = j + 1;
            }
            proof {
                assert(views.take(raw@.len() as int) == views);
                lemma_repeat_step(views, k as nat);
            }
            k = k + 1;
        }
        let ghost ev = events_view(events@);
        proof {
            lemma_events_view_len(events@);
        }
        let mut has_nothing = false;
        let mut i: usize = 0;
        while i < events.len()
            invariant
                i <= events@.len(),
                ev == events_view(events@),
                ev.len() == events@.len(),
                forall|t: int| 0 <= t < events@.len() ==> #[trigger] ev[t] == event_view(events@[t]),
                has_nothing <==> exists|t: int| 0 <= t < i && ev[t] == EventView::Nothing,
            decreases events.len() - i,
        {
            if matches!(events[i], ReedlineEvent::Nothing) {
                has_nothing = true;
            }
            proof {
                assert(ev[i as int] == event_view(events@[i as int]));
            }
            i = i + 1;
        }
        proof {
            if ev.contains(EventView::Nothing) {
                let t = choose|t: int| 0 <= t < ev.len() && ev[t] == EventView::Nothing;
                assert(ev[t] == EventView::Nothing);
            }
            if has_nothing {
                let t = choose|t: int| 0 <= t < i && ev[t] == EventView::Nothing;
                assert(ev.contains(EventView::Nothing));
            }
        }
        if events.len() == 0 || has_nothing {
            ReedlineEvent::Nothing
        } else {
            ReedlineEvent::Multiple(events)
        }
    }

    /// The mode a complete sequence switches to, if any.
    pub fn changes_mode(&self, mode: ViMode) -> (r: Option<ViMode>)
        ensures
            r == mode_after(*self, mode),
    {
        let c = match self.command {
            Some(c) => c,
            None => {
                return None;
            },
        };
        let incomplete = matches!(self.motion, ParseResult::Incomplete);
        let valid = matches!(self.motion, ParseResult::Valid(_));
        let enters_insert = c == Command::EnterViInsert || c == Command::EnterViAppend || c
            == Command::NewlineAbove || c == Command::NewlineBelow || c == Command::ChangeToLineEnd
            || c == Command::AppendToEnd || c == Command::PrependToStart || c
            == Command::RewriteCurrentLine || c == Command::SubstituteCharWithInsert || c
            == Command::HistorySearch;
        if (incomplete && enters_insert) || (c == Command::Change && valid) {
            Some(ViMode::Insert)
        } else if c == Command::Change && incomplete && mode == ViMode::Visual {
            Some(ViMode::Insert)
        } else if incomplete && (c == Command::Delete || c == Command::Lowercase || c
            == Command::Uppercase || c == Command::Switchcase) && mode == ViMode::Visual {
            Some(ViMode::Normal)
        } else if matches!(c, Command::ReplaceChar(_)) && mode == ViMode::Visual {
            Some(ViMode::Normal)
        } else if matches!(c, Command::ChangeTextObject { .. }) {
            Some(ViMode::Insert)
        } else if (incomplete || valid) && (c == Command::Delete || c == Command::DeleteChar || c
            == Command::DeleteToEnd || c == Command::Yank) {
            Some(ViMode::Normal)
        } else {
            None
        }
    }

    /// Records `events` as the action `.` replays, unless there is nothing
    /// to record or the command is `.` itself.
    fn record_previous(vi_state: &mut Vi, command: &Command, events: &ReedlineEvent)
        ensures
            previous_view(final(vi_state).previous) == (if events@ != EventView::Nothing
                && *command != Command::RepeatLastAction {
                Some(events@)
            } else {
                previous_view(old(vi_state).previous)
            }),
            final(vi_state).mode == old(vi_state).mode,
            final(vi_state).last_char_search == old(vi_state).last_char_search,
            final(vi_state).cache == old(vi_state).cache,
            final(vi_state).insert_keybindings == old(vi_state).insert_keybindings,
            final(vi_state).normal_keybindings == old(vi_state).normal_keybindings,
    {
        if matches!(events, ReedlineEvent::Nothing) {
            return;
        }
        if *command == Command::RepeatLastAction {
            return;
        }
        vi_state.previous = Some(events.duplicate());
    }

    /// The event the sequence produces, with the repeats applied. A
    /// command's event is recorded for `.`, and a character search for
    /// `;` and `,`.
    pub fn to_reedline_event(&self, vi_state: &mut Vi) -> (r: ReedlineEvent)
        requires
            total_repeats(*self) <= usize::MAX,
        ensures
            r@ == sequence_event(
                *self,
                old(vi_state).mode == ViMode::Visual,
                previous_view(old(vi_state).previous),
                old(vi_state).last_char_search,
            ),
            previous_view(final(vi_state).previous) == (if records(*self, r@) {
                Some(r@)
            } else {
                previous_view(old(vi_state).previous)
            }),
            final(vi_state).last_char_search == search_after(*self, old(vi_state).last_char_search),
            final(vi_state).mode == old(vi_state).mode,
            final(vi_state).cache == old(vi_state).cache,
            final(vi_state).insert_keybindings == old(vi_state).insert_keybindings,
            final(vi_state).normal_keybindings == old(vi_state).normal_keybindings,
    {
        match (&self.multiplier, &self.command, &self.count, &self.motion) {
            (_, Some(command), None, ParseResult::Incomplete) => {
                let raw = command.to_reedline(vi_state);
                let events = self.apply_multiplier(Some(raw));
                Self::record_previous(vi_state, command, &events);
                events
            },
            (_, Some(command), _, ParseResult::Valid(motion)) => {
                let raw = command.to_reedline_with_motion(motion, vi_state);
                let events = self.apply_multiplier(raw);
                Self::record_previous(vi_state, command, &events);
                events
            },
            (_, None, _, ParseResult::Valid(motion)) => {
                let raw = motion.to_reedline(vi_state);
                self.apply_multiplier(Some(raw))
            },
            _ => ReedlineEvent::Nothing,
        }
    }
}

// ── Laws ──────────────────────────────────────────────────────────────
/// `.` never records itself, so repeating it replays the same change
/// again instead of nesting.
pub proof fn repeat_is_never_recorded(p: ParsedViSequence, ev: EventView)
    requires
        p.command == Some(Command::RepeatLastAction),
    ensures
        !records(p, ev),
{
}

} // verus!
