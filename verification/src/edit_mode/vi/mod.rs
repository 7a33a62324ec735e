//! The Vi edit mode: normal, insert and visual modes, with normal-mode
//! input parsed as `[count] [operator] [count] [motion]`.
pub mod command;
pub mod motion;
pub mod parser;
pub mod vi_keybindings;
pub mod word;

use vstd::prelude::*;

use self::parser::{
    counts_fit, counts_fit_check, mode_after, parse, parsed_sequence, records, search_after, sequence_complete,
    sequence_event, total_repeats, CharStream, ParseResult,
};
use self::vi_keybindings::{default_vi_insert_keybindings, default_vi_normal_keybindings};
use crate::edit_mode::keybindings::Keybindings;
use crate::edit_mode::{
    inserts_text, is_plain_char, non_key_event, normalized_newlines, parse_non_key_event,
    plain_char, text_char,
    EditMode,
};
use crate::enums::{
    multiple2, EditCommand, EventStatus, EventView, MotionTarget, PromptEditMode, PromptViMode,
    ReedlineEvent,
};
use crate::keys::{InputEvent, KeyCode, KeyCombination, KeyModifiers};
use crate::text::{ascii_lowercase, ascii_uppercase, str_equals, to_ascii_lowercase, to_ascii_uppercase};

verus! {

/// The Vi modes.
#[derive(Clone, Copy, Debug, PartialEq, Eq, Structural)]
pub enum ViMode {
    Normal,
    Insert,
    Visual,
}

/// The mode a mode name stands for.
pub open spec fn vi_mode_named(s: Seq<char>) -> Option<ViMode> {
    if s == "normal"@ {
        Some(ViMode::Normal)
    } else if s == "insert"@ {
        Some(ViMode::Insert)
    } else if s == "visual"@ {
        Some(ViMode::Visual)
    } else {
        None
    }
}

impl ViMode {
    /// The mode named `s`: `normal`, `insert` or `visual`.
    pub fn from_str(s: &str) -> (r: Result<ViMode, ()>)
        ensures
            match vi_mode_named(s@) {
                Some(m) => r == Ok::<ViMode, ()>(m),
                None => r is Err,
            },
    {
        if str_equals(s, "normal") {
            Ok(ViMode::Normal)
        } else if str_equals(s, "insert") {
            Ok(ViMode::Insert)
        } else if str_equals(s, "visual") {
            Ok(ViMode::Visual)
        } else {
            Err(())
        }
    }
}

/// The Vi edit mode's state.
pub struct Vi {
    /// Normal-mode keys typed so far that do not form a complete
    /// sequence yet.
    pub cache: Vec<char>,
    pub insert_keybindings: Keybindings,
    pub normal_keybindings: Keybindings,
    pub mode: ViMode,
    /// The last recorded change, which `.` replays.
    pub previous: Option<ReedlineEvent>,
    /// The last `f`/`t`/`F`/`T` search, which `;` and `,` repeat.
    pub last_char_search: Option<MotionTarget>,
}

/// The part of the Vi state that input changes.
pub struct ViView {
    pub cache: Seq<char>,
    pub mode: ViMode,
    pub previous: Option<EventView>,
    pub last_char_search: Option<MotionTarget>,
}

pub open spec fn event_of(p: Option<ReedlineEvent>) -> Option<EventView> {
    match p {
        Some(e) => Some(e@),
        None => None,
    }
}

/// A character key in normal or visual mode: a binding if there is one,
/// else the key joins the pending sequence, which runs once complete.
pub open spec fn normal_char_step(
    s: ViView,
    normal: Map<KeyCombination, EventView>,
    c: char,
    modifiers: KeyModifiers,
) -> (ViView, EventView) {
    let lc = ascii_lowercase(c);
    let key = KeyCombination { modifier: modifiers, key_code: KeyCode::Char(lc) };
    if normal.dom().contains(key) {
        (s, normal[key])
    } else if plain_char(modifiers) {
        let typed = if modifiers.bits == 1 {
            ascii_uppercase(lc)
        } else {
            lc
        };
        let cache = s.cache.push(typed);
        let p = parsed_sequence(s.mode, cache);
        if p.motion is Invalid {
            (ViView { cache: Seq::empty(), ..s }, EventView::Nothing)
        } else if sequence_complete(p, s.mode) {
            let ev = sequence_event(
                p,
                s.mode == ViMode::Visual,
                s.previous,
                s.last_char_search,
            );
            let mode = match mode_after(p, s.mode) {
                Some(m) => m,
                None => s.mode,
            };
            (
                ViView {
                    cache: Seq::empty(),
                    mode,
                    previous: if records(p, ev) {
                        Some(ev)
                    } else {
                        s.previous
                    },
                    last_char_search: search_after(p, s.last_char_search),
                },
                ev,
            )
        } else {
            (ViView { cache, ..s }, EventView::Nothing)
        }
    } else {
        (s, EventView::Nothing)
    }
}

/// A key in the given state: the whole Vi key handling.
pub open spec fn vi_key_step(
    s: ViView,
    normal: Map<KeyCombination, EventView>,
    insert: Map<KeyCombination, EventView>,
    code: KeyCode,
    modifiers: KeyModifiers,
) -> (ViView, EventView) {
    let key = KeyCombination { modifier: modifiers, key_code: code };
    let esc_repaint = EventView::Multiple(seq![EventView::Esc, EventView::Repaint]);
    if s.mode == ViMode::Normal && modifiers.bits == 0 && code == KeyCode::Char('v') {
        (ViView { cache: Seq::empty(), mode: ViMode::Visual, ..s }, esc_repaint)
    } else if s.mode != ViMode::Insert && code is Char {
        normal_char_step(s, normal, code->Char_0, modifiers)
    } else if s.mode == ViMode::Insert && code is Char {
        let c = if modifiers.bits == 0 {
            code->Char_0
        } else {
            ascii_lowercase(code->Char_0)
        };
        let k = KeyCombination { modifier: modifiers, key_code: KeyCode::Char(c) };
        if insert.dom().contains(k) {
            (s, insert[k])
        } else if text_char(modifiers) {
            (
                s,
                EventView::Edit(
                    seq![
                        EditCommand::InsertChar(
                            if modifiers.bits == 1 {
                                ascii_uppercase(c)
                            } else {
                                c
                            },
                        ),
                    ],
                ),
            )
        } else {
            (s, EventView::Nothing)
        }
    } else if modifiers.bits == 0 && code == KeyCode::Esc {
        (ViView { cache: Seq::empty(), mode: ViMode::Normal, ..s }, esc_repaint)
    } else if s.mode != ViMode::Insert {
        if normal.dom().contains(key) {
            (s, normal[key])
        } else if modifiers.bits == 0 && code == KeyCode::Enter {
            (ViView { mode: ViMode::Insert, ..s }, EventView::Enter)
        } else {
            (s, EventView::Nothing)
        }
    } else {
        if insert.dom().contains(key) {
            (s, insert[key])
        } else if modifiers.bits == 0 && code == KeyCode::Enter {
            (s, EventView::Enter)
        } else {
            (s, EventView::Nothing)
        }
    }
}

/// The keys Vi takes without overflow: a character joining the pending
/// sequence must leave its counts, and their product once the sequence
/// is complete, within a `usize`.
pub open spec fn vi_accepts(
    s: ViView,
    normal: Map<KeyCombination, EventView>,
    code: KeyCode,
    modifiers: KeyModifiers,
) -> bool {
    if s.mode != ViMode::Insert && code is Char && !(s.mode == ViMode::Normal && modifiers.bits
        == 0 && code == KeyCode::Char('v')) {
        let lc = ascii_lowercase(code->Char_0);
        let key = KeyCombination { modifier: modifiers, key_code: KeyCode::Char(lc) };
        let typed = if modifiers.bits == 1 {
            ascii_uppercase(lc)
        } else {
            lc
        };
        let cache = s.cache.push(typed);
        let p = parsed_sequence(s.mode, cache);
        normal.dom().contains(key) || !plain_char(modifiers) || (counts_fit(s.mode, cache) && (
        !(p.motion is Invalid) && sequence_complete(p, s.mode) ==> total_repeats(p)
            <= usize::MAX))
    } else {
        true
    }
}

/// What parsing `event` does in Vi mode: `f` is the state after `o`, and
/// `r` the event.
pub open spec fn vi_parsed(o: Vi, f: Vi, event: InputEvent, r: ReedlineEvent) -> bool {
    &&& (f.wf())
    &&& (f.insert_keybindings == o.insert_keybindings)
    &&& (f.normal_keybindings == o.normal_keybindings)
    &&& (match event {
        InputEvent::Key { code, modifiers } => (f.state(), r@) == vi_key_step(
            o.state(),
            o.normal_keybindings.combos(),
            o.insert_keybindings.combos(),
            code,
            modifiers,
        ),
        InputEvent::Paste(body) => f.state() == o.state() && inserts_text(
            r,
            normalized_newlines(body@),
        ),
        _ => f.state() == o.state() && r@ == non_key_event(event)
    })
}

impl Vi {
    /// Whether Vi can take the key `code` with `modifiers` now: a
    /// character joining the pending sequence must leave its counts, and
    /// their product once the sequence is complete, within a `usize`.
    pub fn accepts_key(&self, code: KeyCode, modifiers: KeyModifiers) -> (r: bool)
        requires
            self.wf(),
        ensures
            r == vi_accepts(self.state(), self.normal_keybindings.combos(), code, modifiers),
    {
        let c = match code {
            KeyCode::Char(c) => c,
            _ => {
                return true;
            },
        };
        if self.mode == ViMode::Insert || (self.mode == ViMode::Normal && modifiers.bits == 0 && c
            == 'v') {
            return true;
        }
        let lc = to_ascii_lowercase(c);
        if self.normal_keybindings.find_binding(modifiers, KeyCode::Char(lc)).is_some() {
            return true;
        }
        if !is_plain_char(modifiers) {
            return true;
        }
        let typed = if modifiers.bits == 1 {
            to_ascii_uppercase(lc)
        } else {
            lc
        };
        let mut cache: Vec<char> = Vec::new();
        let mut i: usize = 0;
        while i < self.cache.len()
            invariant
                i <= self.cache@.len(),
                cache@ == self.cache@.take(i as int),
            decreases self.cache.len() - i,
        {
            cache.push(self.cache[i]);
            i = i + 1;
        }
        proof {
            assert(self.cache@.take(self.cache@.len() as int) == self.cache@);
        }
        cache.push(typed);
        if !counts_fit_check(self.mode, &cache) {
            return false;
        }
        let mut input = CharStream::new(cache);
        let p = parse(self.mode, &mut input);
        if !p.is_valid() || !p.is_complete(self.mode) {
            return true;
        }
        let m: usize = match p.multiplier {
            Some(v) => v,
            None => 1,
        };
        let n: usize = match p.count {
            Some(v) => v,
            None => 1,
        };
        m.checked_mul(n).is_some()
    }

    /// The state that input changes.
    pub open spec fn state(&self) -> ViView {
        ViView {
            cache: self.cache@,
            mode: self.mode,
            previous: event_of(self.previous),
            last_char_search: self.last_char_search,
        }
    }

    pub open spec fn wf(&self) -> bool {
        self.insert_keybindings.wf() && self.normal_keybindings.wf()
    }

    /// A Vi mode with the given tables, starting in insert mode.
    pub fn new(insert_keybindings: Keybindings, normal_keybindings: Keybindings) -> (r: Self)
        ensures
            r.insert_keybindings == insert_keybindings,
            r.normal_keybindings == normal_keybindings,
            r.mode == ViMode::Insert,
            r.cache@.len() == 0,
            r.previous is None,
            r.last_char_search is None,
    {
        Vi {
            cache: Vec::new(),
            insert_keybindings,
            normal_keybindings,
            mode: ViMode::Insert,
            previous: None,
            last_char_search: None,
        }
    }

    /// Parses the pending normal-mode keys after `c` was typed, runs the
    /// sequence once it is complete, and keeps it pending otherwise.
    fn type_normal_char(&mut self, typed: char) -> (r: ReedlineEvent)
        requires
            old(self).mode != ViMode::Insert,
            counts_fit(old(self).mode, old(self).cache@.push(typed)),
            ({
                let p = parsed_sequence(old(self).mode, old(self).cache@.push(typed));
                !(p.motion is Invalid) && sequence_complete(p, old(self).mode) ==> total_repeats(p)
                    <= usize::MAX
            }),
        ensures
            ({
                let s = old(self).state();
                let cache = s.cache.push(typed);
                let p = parsed_sequence(s.mode, cache);
                if p.motion is Invalid {
                    final(self).state() == ViView { cache: Seq::empty(), ..s } && r@
                        == EventView::Nothing
                } else if sequence_complete(p, s.mode) {
                    let ev = sequence_event(
                        p,
                        s.mode == ViMode::Visual,
                        s.previous,
                        s.last_char_search,
                    );
                    &&& r@ == ev
                    &&& final(self).state() == ViView {
                        cache: Seq::empty(),
                        mode: match mode_after(p, s.mode) {
                            Some(m) => m,
                            None => s.mode,
                        },
                        previous: if records(p, ev) {
                            Some(ev)
                        } else {
                            s.previous
                        },
                        last_char_search: search_after(p, s.last_char_search),
                    }
                } else {
                    final(self).state() == ViView { cache, ..s } && r@ == EventView::Nothing
                }
            }),
            final(self).insert_keybindings == old(self).insert_keybindings,
            final(self).normal_keybindings == old(self).normal_keybindings,
    {
        self.cache.push(typed);
        let mut input = CharStream::from_slice(self.cache.as_slice());
        let res = parse(self.mode, &mut input);
        if !res.is_valid() {
            self.cache.clear();
            ReedlineEvent::Nothing
        } else if res.is_complete(self.mode) {
            let event = res.to_reedline_event(self);
            if let Some(mode) = res.changes_mode(self.mode) {
                self.mode = mode;
            }
            self.cache.clear();
            proof {
                assert(self.cache@ =~= Seq::<char>::empty());
            }
            event
        } else {
            ReedlineEvent::Nothing
        }
    }

    /// Turns one input event into editor events, as the Vi modes do.
    pub fn parse_vi_event(&mut self, event: InputEvent) -> (r: ReedlineEvent)
        requires
            old(self).wf(),
            event matches InputEvent::Key { code, modifiers } ==> vi_accepts(
                old(self).state(),
                old(self).normal_keybindings.combos(),
                code,
                modifiers,
            ),
        ensures
            vi_parsed(*old(self), *final(self), event, r),
    {
        let (code, modifiers) = match event {
            InputEvent::Key { code, modifiers } => (code, modifiers),
            _ => {
                return parse_non_key_event(event);
            },
        };
        let ghost s = self.state();
        if self.mode == ViMode::Normal && modifiers.bits == 0 && code == KeyCode::Char('v') {
            self.cache.clear();
            self.mode = ViMode::Visual;
            proof {
                assert(self.cache@ =~= Seq::<char>::empty());
            }
            return multiple2(ReedlineEvent::Esc, ReedlineEvent::Repaint);
        }
        match code {
            KeyCode::Char(c) => {
                if self.mode != ViMode::Insert {
                    let lc = to_ascii_lowercase(c);
                    if let Some(event) = self.normal_keybindings.find_binding(
                        modifiers,
                        KeyCode::Char(lc),
                    ) {
                        return event;
                    }
                    if modifiers.bits == 0 || modifiers.bits == 1 {
                        let typed = if modifiers.bits == 1 {
                            to_ascii_uppercase(lc)
                        } else {
                            lc
                        };
                        return self.type_normal_char(typed);
                    }
                    return ReedlineEvent::Nothing;
                } else {
                    let c2 = if modifiers.bits == 0 {
                        c
                    } else {
                        to_ascii_lowercase(c)
                    };
                    if let Some(event) = self.insert_keybindings.find_binding(
                        modifiers,
                        KeyCode::Char(c2),
                    ) {
                        return event;
                    }
                    if modifiers.bits == 0 || modifiers.bits == 1 || modifiers.bits == 6
                        || modifiers.bits == 7 {
                        let ch = if modifiers.bits == 1 {
                            to_ascii_uppercase(c2)
                        } else {
                            c2
                        };
                        let v = vec![EditCommand::InsertChar(ch)];
                        assert(v@ == seq![EditCommand::InsertChar(ch)]);
                        return ReedlineEvent::Edit(v);
                    }
                    return ReedlineEvent::Nothing;
                }
            },
            _ => {},
        }
        if modifiers.bits == 0 && code == KeyCode::Esc {
            self.cache.clear();
            self.mode = ViMode::Normal;
            proof {
                assert(self.cache@ =~= Seq::<char>::empty());
            }
            return multiple2(ReedlineEvent::Esc, ReedlineEvent::Repaint);
        }
        if self.mode != ViMode::Insert {
            match self.normal_keybindings.find_binding(modifiers, code) {
                Some(event) => event,
                None => if modifiers.bits == 0 && code == KeyCode::Enter {
                    self.mode = ViMode::Insert;
                    ReedlineEvent::Enter
                } else {
                    ReedlineEvent::Nothing
                },
            }
        } else {
            match self.insert_keybindings.find_binding(modifiers, code) {
                Some(event) => event,
                None => if modifiers.bits == 0 && code == KeyCode::Enter {
                    ReedlineEvent::Enter
                } else {
                    ReedlineEvent::Nothing
                },
            }
        }
    }

    /// What the prompt shows: normal for normal and visual, insert for
    /// insert.
    pub fn prompt_mode(&self) -> (r: PromptEditMode)
        ensures
            r == (if self.mode == ViMode::Insert {
                PromptEditMode::Vi(PromptViMode::Insert)
            } else {
                PromptEditMode::Vi(PromptViMode::Normal)
            }),
    {
        match self.mode {
            ViMode::Normal | ViMode::Visual => PromptEditMode::Vi(PromptViMode::Normal),
            ViMode::Insert => PromptEditMode::Vi(PromptViMode::Insert),
        }
    }

    /// Takes a `ViChangeMode` event naming a mode; declines the rest.
    pub fn change_mode_event(&mut self, event: ReedlineEvent) -> (r: EventStatus)
        ensures
            final(self).cache == old(self).cache,
            final(self).previous == old(self).previous,
            final(self).last_char_search == old(self).last_char_search,
            final(self).insert_keybindings == old(self).insert_keybindings,
            final(self).normal_keybindings == old(self).normal_keybindings,
            match event {
                ReedlineEvent::ViChangeMode(s) => match vi_mode_named(s@) {
                    Some(m) => r == EventStatus::Handled && final(self).mode == m,
                    None => r == EventStatus::Inapplicable && final(self).mode == old(self).mode,
                },
                _ => r == EventStatus::Inapplicable && final(self).mode == old(self).mode,
            },
    {
        match event {
            ReedlineEvent::ViChangeMode(mode_str) => match ViMode::from_str(mode_str.as_str()) {
                Ok(mode) => {
                    self.mode = mode;
                    EventStatus::Handled
                },
                Err(_) => EventStatus::Inapplicable,
            },
            _ => EventStatus::Inapplicable,
        }
    }
}

impl Default for Vi {
    /// Vi with the default tables, starting in insert mode.
    fn default() -> (r: Self)
        ensures
            r.wf(),
            r.mode == ViMode::Insert,
            r.cache@.len() == 0,
            r.previous is None,
            r.last_char_search is None,
    {
        Vi::new(default_vi_insert_keybindings(), default_vi_normal_keybindings())
    }
}

impl EditMode for Vi {
    open spec fn ready(&self) -> bool {
        self.wf()
    }

    open spec fn accepts(&self, event: InputEvent) -> bool {
        event matches InputEvent::Key { code, modifiers } ==> vi_accepts(
            self.state(),
            self.normal_keybindings.combos(),
            code,
            modifiers,
        )
    }

    fn parse_event(&mut self, event: InputEvent) -> (r: ReedlineEvent)
        ensures
            vi_parsed(*old(self), *final(self), event, r),
    {
        self.parse_vi_event(event)
    }

    fn edit_mode(&self) -> (r: PromptEditMode)
        ensures
            r == (if self.mode == ViMode::Insert {
                PromptEditMode::Vi(PromptViMode::Insert)
            } else {
                PromptEditMode::Vi(PromptViMode::Normal)
            }),
    {
        self.prompt_mode()
    }

    fn handle_mode_specific_event(&mut self, event: ReedlineEvent) -> (r: EventStatus)
        ensures
            final(self).cache == old(self).cache,
            final(self).previous == old(self).previous,
            final(self).last_char_search == old(self).last_char_search,
            final(self).insert_keybindings == old(self).insert_keybindings,
            final(self).normal_keybindings == old(self).normal_keybindings,
            match event {
                ReedlineEvent::ViChangeMode(s) => match vi_mode_named(s@) {
                    Some(m) => r == EventStatus::Handled && final(self).mode == m,
                    None => r == EventStatus::Inapplicable && final(self).mode == old(self).mode,
                },
                _ => r == EventStatus::Inapplicable && final(self).mode == old(self).mode,
            },
    {
        self.change_mode_event(event)
    }
}

// ── Laws ──────────────────────────────────────────────────────────────
/// A plain `Esc` returns Vi to normal mode from any state, forgetting the
/// keys typed so far and keeping what `.` and `;` replay.
pub proof fn esc_always_returns_to_normal(
    s: ViView,
    normal: Map<KeyCombination, EventView>,
    insert: Map<KeyCombination, EventView>,
)
    ensures
        ({
            let (t, ev) = vi_key_step(s, normal, insert, KeyCode::Esc, KeyModifiers { bits: 0 });
            &&& t.mode == ViMode::Normal
            &&& t.cache.len() == 0
            &&& t.previous == s.previous
            &&& t.last_char_search == s.last_char_search
            &&& ev == EventView::Multiple(seq![EventView::Esc, EventView::Repaint])
        }),
{
}

} // verus!
