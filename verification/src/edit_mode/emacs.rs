//! The Emacs edit mode: every key goes through the keybinding table, and
//! unbound characters are typed as text.
use vstd::prelude::*;

use crate::edit_mode::keybindings::{
    add_common_control_bindings, add_common_edit_bindings, add_common_navigation_bindings,
    add_common_selection_bindings, common_control_bindings, common_edit_bindings,
    common_navigation_bindings, common_selection_bindings, drop_nothing, edit_bind, finish,
    flushed_head, flushed_keys, option_event_view, resolve, resolved_events, KeySequenceState,
    Keybindings, Resolved,
};
use crate::edit_mode::{
    inserts_text, is_text_char, non_key_event, normalized_newlines, parse_non_key_event, text_char,
    EditMode,
};
use crate::enums::{
    events_view, lemma_events_view_len, lemma_events_view_push, until_found2, until_found3,
    EditCommand, EventView, PromptEditMode, ReedlineEvent,
};
use crate::keys::{InputEvent, KeyCode, KeyCombination, KeyModifiers};
use crate::text::{
    ascii_lowercase, ascii_uppercase, is_ascii_uppercase_char, to_ascii_lowercase,
    to_ascii_uppercase,
};

verus! {

/// The bindings the Emacs table adds on top of the common ones.
pub open spec fn emacs_own_bindings() -> Map<KeyCombination, EventView> {
    map![
        KeyCombination { modifier: KeyModifiers { bits: 0 }, key_code: KeyCode::Enter } => EventView::Enter,
        KeyCombination { modifier: KeyModifiers { bits: 2 }, key_code: KeyCode::Char('b') } => EventView::UntilFound(seq![EventView::MenuLeft, EventView::Left]),
        KeyCombination { modifier: KeyModifiers { bits: 2 }, key_code: KeyCode::Char('f') } => EventView::UntilFound(seq![EventView::HistoryHintComplete, EventView::MenuRight, EventView::Right]),
        KeyCombination { modifier: KeyModifiers { bits: 2 }, key_code: KeyCode::Char('g') } => EventView::Edit(seq![EditCommand::Redo]),
        KeyCombination { modifier: KeyModifiers { bits: 2 }, key_code: KeyCode::Char('z') } => EventView::Edit(seq![EditCommand::Undo]),
        KeyCombination { modifier: KeyModifiers { bits: 2 }, key_code: KeyCode::Char('y') } => EventView::Edit(seq![EditCommand::PasteCutBufferBefore]),
        KeyCombination { modifier: KeyModifiers { bits: 2 }, key_code: KeyCode::Char('w') } => EventView::Edit(seq![EditCommand::CutWordLeft]),
        KeyCombination { modifier: KeyModifiers { bits: 2 }, key_code: KeyCode::Char('k') } => EventView::Edit(seq![EditCommand::KillLine]),
        KeyCombination { modifier: KeyModifiers { bits: 2 }, key_code: KeyCode::Char('u') } => EventView::Edit(seq![EditCommand::CutFromStart]),
        KeyCombination { modifier: KeyModifiers { bits: 4 }, key_code: KeyCode::Char('d') } => EventView::Edit(seq![EditCommand::CutWordRight]),
        KeyCombination { modifier: KeyModifiers { bits: 2 }, key_code: KeyCode::Char('t') } => EventView::Edit(seq![EditCommand::SwapGraphemes]),
        KeyCombination { modifier: KeyModifiers { bits: 4 }, key_code: KeyCode::Left } => EventView::Edit(seq![EditCommand::MoveWordLeft { select: false }]),
        KeyCombination { modifier: KeyModifiers { bits: 4 }, key_code: KeyCode::Right } => EventView::UntilFound(seq![EventView::HistoryHintWordComplete, EventView::Edit(seq![EditCommand::MoveWordRight { select: false }])]),
        KeyCombination { modifier: KeyModifiers { bits: 4 }, key_code: KeyCode::Char('b') } => EventView::Edit(seq![EditCommand::MoveWordLeft { select: false }]),
        KeyCombination { modifier: KeyModifiers { bits: 4 }, key_code: KeyCode::Char('f') } => EventView::UntilFound(seq![EventView::HistoryHintWordComplete, EventView::Edit(seq![EditCommand::MoveWordRight { select: false }])]),
        KeyCombination { modifier: KeyModifiers { bits: 4 }, key_code: KeyCode::Delete } => EventView::Edit(seq![EditCommand::DeleteWord]),
        KeyCombination { modifier: KeyModifiers { bits: 4 }, key_code: KeyCode::Backspace } => EventView::Edit(seq![EditCommand::BackspaceWord]),
        KeyCombination { modifier: KeyModifiers { bits: 4 }, key_code: KeyCode::Char('m') } => EventView::Edit(seq![EditCommand::BackspaceWord]),
        KeyCombination { modifier: KeyModifiers { bits: 4 }, key_code: KeyCode::Char('u') } => EventView::Edit(seq![EditCommand::UppercaseWord]),
        KeyCombination { modifier: KeyModifiers { bits: 4 }, key_code: KeyCode::Char('l') } => EventView::Edit(seq![EditCommand::LowercaseWord]),
        KeyCombination { modifier: KeyModifiers { bits: 4 }, key_code: KeyCode::Char('c') } => EventView::Edit(seq![EditCommand::CapitalizeChar]),
    ]
}

/// The default Emacs table: the common control, navigation, edit and
/// selection bindings, then the Emacs ones.
pub open spec fn emacs_bindings() -> Map<KeyCombination, EventView> {
    Map::<KeyCombination, EventView>::empty().union_prefer_right(common_control_bindings()).union_prefer_right(
        common_navigation_bindings(),
    ).union_prefer_right(common_edit_bindings()).union_prefer_right(
        common_selection_bindings(),
    ).union_prefer_right(emacs_own_bindings())
}

/// In the default Emacs table, Alt with `u`, `l` or `c` changes the case
/// of the word at the cursor, whatever Emacs state takes the key: `u`
/// upper-cases it, `l` lower-cases it and `c` capitalizes it, three
/// different edits.
pub proof fn emacs_alt_case_keys(o: Emacs, f: Emacs, c: char, modifiers: KeyModifiers, r: ReedlineEvent)
    requires
        o.bindings() == emacs_bindings(),
        o.sequences().len() == 0,
        modifiers.bits == 4,
        emacs_parsed(o, f, InputEvent::Key { code: KeyCode::Char(c), modifiers }, r),
    ensures
        c == 'u' ==> r@ == EventView::Edit(seq![EditCommand::UppercaseWord]),
        c == 'l' ==> r@ == EventView::Edit(seq![EditCommand::LowercaseWord]),
        c == 'c' ==> r@ == EventView::Edit(seq![EditCommand::CapitalizeChar]),
{
    let combo = normalized_combo(modifiers, KeyCode::Char(c));
    if c == 'u' || c == 'l' || c == 'c' {
        assert(!is_ascii_uppercase_char(c));
        assert(combo == KeyCombination { modifier: KeyModifiers { bits: 4 }, key_code: KeyCode::Char(c) });
        assert(emacs_own_bindings().dom().contains(combo));
        assert(emacs_bindings()[combo] == emacs_own_bindings()[combo]);
    }
}

/// The default Emacs keybindings.
pub fn default_emacs_keybindings() -> (r: Keybindings)
    ensures
        r.wf(),
        r.combos() == emacs_bindings(),
        r.sequences() == Map::<Seq<KeyCombination>, EventView>::empty(),
{
    let mut kb = Keybindings::new();
    add_common_control_bindings(&mut kb);
    add_common_navigation_bindings(&mut kb);
    add_common_edit_bindings(&mut kb);
    add_common_selection_bindings(&mut kb);
    let ghost m0 = kb.combos();
    let none = KeyModifiers::none();
    let ctrl = KeyModifiers::control();
    let alt = KeyModifiers::alt();
    kb.add_binding(none, KeyCode::Enter, ReedlineEvent::Enter);
    kb.add_binding(ctrl, KeyCode::Char('b'), until_found2(ReedlineEvent::MenuLeft, ReedlineEvent::Left));
    kb.add_binding(
        ctrl,
        KeyCode::Char('f'),
        until_found3(ReedlineEvent::HistoryHintComplete, ReedlineEvent::MenuRight, ReedlineEvent::Right),
    );
    kb.add_binding(ctrl, KeyCode::Char('g'), edit_bind(EditCommand::Redo));
    kb.add_binding(ctrl, KeyCode::Char('z'), edit_bind(EditCommand::Undo));
    kb.add_binding(ctrl, KeyCode::Char('y'), edit_bind(EditCommand::PasteCutBufferBefore));
    kb.add_binding(ctrl, KeyCode::Char('w'), edit_bind(EditCommand::CutWordLeft));
    kb.add_binding(ctrl, KeyCode::Char('k'), edit_bind(EditCommand::KillLine));
    kb.add_binding(ctrl, KeyCode::Char('u'), edit_bind(EditCommand::CutFromStart));
    kb.add_binding(alt, KeyCode::Char('d'), edit_bind(EditCommand::CutWordRight));
    kb.add_binding(ctrl, KeyCode::Char('t'), edit_bind(EditCommand::SwapGraphemes));
    kb.add_binding(alt, KeyCode::Left, edit_bind(EditCommand::MoveWordLeft { select: false }));
    kb.add_binding(
        alt,
        KeyCode::Right,
        until_found2(
            ReedlineEvent::HistoryHintWordComplete,
            edit_bind(EditCommand::MoveWordRight { select: false }),
        ),
    );
    kb.add_binding(alt, KeyCode::Char('b'), edit_bind(EditCommand::MoveWordLeft { select: false }));
    kb.add_binding(
        alt,
        KeyCode::Char('f'),
        until_found2(
            ReedlineEvent::HistoryHintWordComplete,
            edit_bind(EditCommand::MoveWordRight { select: false }),
        ),
    );
    kb.add_binding(alt, KeyCode::Delete, edit_bind(EditCommand::DeleteWord));
    kb.add_binding(alt, KeyCode::Backspace, edit_bind(EditCommand::BackspaceWord));
    kb.add_binding(alt, KeyCode::Char('m'), edit_bind(EditCommand::BackspaceWord));
    kb.add_binding(alt, KeyCode::Char('u'), edit_bind(EditCommand::UppercaseWord));
    kb.add_binding(alt, KeyCode::Char('l'), edit_bind(EditCommand::LowercaseWord));
    kb.add_binding(alt, KeyCode::Char('c'), edit_bind(EditCommand::CapitalizeChar));
    assert(kb.combos() =~= m0.union_prefer_right(emacs_own_bindings()));
    kb
}

/// The combination a key press stands for: a character under any
/// modifier is taken in lower case.
pub open spec fn normalized_combo(modifier: KeyModifiers, code: KeyCode) -> KeyCombination {
    KeyCombination {
        modifier,
        key_code: match code {
            KeyCode::Char(c) => KeyCode::Char(
                if modifier.bits == 0 {
                    c
                } else {
                    ascii_lowercase(c)
                },
            ),
            other => other,
        },
    }
}

/// What one combination does on its own under the table `m`: its
/// binding; else, for a character under a modifier set that types text,
/// the character (upper-cased under Shift alone); else nothing.
pub open spec fn single_key(m: Map<KeyCombination, EventView>, combo: KeyCombination) -> EventView {
    if m.dom().contains(combo) {
        m[combo]
    } else {
        match combo.key_code {
            KeyCode::Char(c) => if text_char(combo.modifier) {
                EventView::Edit(
                    seq![
                        EditCommand::InsertChar(
                            if combo.modifier.bits == 1 {
                                ascii_uppercase(c)
                            } else {
                                c
                            },
                        ),
                    ],
                )
            } else {
                EventView::Nothing
            },
            _ => EventView::Nothing,
        }
    }
}

/// What each of `keys` does on its own.
pub open spec fn single_keys(m: Map<KeyCombination, EventView>, keys: Seq<KeyCombination>) -> Seq<EventView> {
    Seq::new(keys.len(), |i: int| single_key(m, keys[i]))
}

/// The events of resolved items, the keys left over taken on their own.
pub open spec fn resolved_with(m: Map<KeyCombination, EventView>, outs: Seq<Resolved>) -> Seq<EventView> {
    Seq::new(
        outs.len(),
        |i: int|
            match outs[i] {
                Resolved::Bound(_, e) => e,
                Resolved::Fallback(k) => single_key(m, k),
            },
    )
}

/// The event, or nothing.
pub open spec fn or_nothing(o: Option<EventView>) -> EventView {
    match o {
        Some(e) => e,
        None => EventView::Nothing,
    }
}

/// One key press in Emacs mode, with table `m`, bound sequences `seqs`,
/// waiting keys `keys` and remembered match `pending`: the keys then
/// waiting, the match then remembered, and the event.
pub open spec fn emacs_key_step(
    m: Map<KeyCombination, EventView>,
    seqs: Map<Seq<KeyCombination>, EventView>,
    keys: Seq<KeyCombination>,
    pending: Option<(nat, EventView)>,
    combo: KeyCombination,
) -> (Seq<KeyCombination>, Option<(nat, EventView)>, EventView) {
    if seqs.len() == 0 {
        (Seq::empty(), None, single_key(m, combo))
    } else {
        let t = resolve(keys.push(combo), pending, seqs);
        (t.0, t.1, or_nothing(finish(drop_nothing(resolved_with(m, t.2)))))
    }
}

/// What giving up on the waiting keys yields.
pub open spec fn emacs_flush(
    m: Map<KeyCombination, EventView>,
    keys: Seq<KeyCombination>,
    pending: Option<(nat, EventView)>,
) -> Option<EventView> {
    finish(flushed_head(keys, pending) + drop_nothing(single_keys(m, flushed_keys(keys, pending))))
}

/// `e` after what a flush gave: `e` alone when nothing was flushed, the
/// flushed event alone when `e` is empty, else both in order.
pub open spec fn flushed_with(flushed: Option<EventView>, e: EventView) -> EventView {
    match flushed {
        None => e,
        Some(f) => if e == EventView::Nothing {
            f
        } else {
            match f {
                EventView::Multiple(es) => EventView::Multiple(es.push(e)),
                other => EventView::Multiple(seq![other, e]),
            }
        },
    }
}

/// `ev` is what every edit mode makes of the non-key event `event`.
pub open spec fn non_key_parsed(event: InputEvent, ev: ReedlineEvent) -> bool {
    match event {
        InputEvent::Paste(body) => inserts_text(ev, normalized_newlines(body@)),
        _ => ev@ == non_key_event(event),
    }
}

/// Input parsing in the style of Emacs.
pub struct Emacs {
    keybindings: Keybindings,
    sequence_state: KeySequenceState,
}

/// What parsing `event` does in Emacs mode: `f` is the state after `o`,
/// and `r` the event.
pub open spec fn emacs_parsed(o: Emacs, f: Emacs, event: InputEvent, r: ReedlineEvent) -> bool {
    &&& (f.wf())
    &&& (f.bindings() == o.bindings())
    &&& (f.sequences() == o.sequences())
    &&& (match event {
        InputEvent::Key { code, modifiers } => {
            let s = emacs_key_step(
                o.bindings(),
                o.sequences(),
                o.keys(),
                o.pending(),
                normalized_combo(modifiers, code),
            );
            &&& f.keys() == s.0
            &&& f.pending() == s.1
            &&& r@ == s.2
        },
        _ => {
            &&& f.keys().len() == 0
            &&& f.pending() is None
            &&& exists|ev: ReedlineEvent|
                non_key_parsed(event, ev) && r@ == flushed_with(
                    emacs_flush(o.bindings(), o.keys(), o.pending()),
                    #[trigger] ev@,
                )
        }
    })
}

impl Emacs {
    /// The single-combination table.
    pub closed spec fn bindings(&self) -> Map<KeyCombination, EventView> {
        self.keybindings.combos()
    }

    /// The bound key sequences.
    pub closed spec fn sequences(&self) -> Map<Seq<KeyCombination>, EventView> {
        self.keybindings.sequences()
    }

    /// The keys of a sequence typed so far.
    pub closed spec fn keys(&self) -> Seq<KeyCombination> {
        self.sequence_state.keys()
    }

    /// The longest exact match among them.
    pub closed spec fn pending(&self) -> Option<(nat, EventView)> {
        self.sequence_state.pending()
    }

    pub closed spec fn wf(&self) -> bool {
        self.keybindings.wf()
    }

    /// Emacs mode with the table `keybindings`.
    pub fn new(keybindings: Keybindings) -> (r: Self)
        requires
            keybindings.wf(),
        ensures
            r.wf(),
            r.bindings() == keybindings.combos(),
            r.sequences() == keybindings.sequences(),
            r.keys().len() == 0,
            r.pending() is None,
    {
        Emacs { keybindings, sequence_state: KeySequenceState::new() }
    }

    /// The combination a key press stands for.
    pub fn normalize_key_combo(modifier: KeyModifiers, code: KeyCode) -> (r: KeyCombination)
        ensures
            r == normalized_combo(modifier, code),
    {
        let key_code = match code {
            KeyCode::Char(c) => {
                let c = if modifier.bits == 0 {
                    c
                } else {
                    to_ascii_lowercase(c)
                };
                KeyCode::Char(c)
            },
            other => other,
        };
        KeyCombination { modifier, key_code }
    }

    /// What `combo` does on its own under `keybindings`.
    pub fn single_key_event(keybindings: &Keybindings, combo: KeyCombination) -> (r: ReedlineEvent)
        requires
            keybindings.wf(),
        ensures
            r@ == single_key(keybindings.combos(), combo),
    {
        if let Some(event) = keybindings.find_binding(combo.modifier, combo.key_code) {
            return event;
        }
        match combo.key_code {
            KeyCode::Char(c) => {
                if is_text_char(combo.modifier) {
                    let typed = if combo.modifier.bits == 1 {
                        to_ascii_uppercase(c)
                    } else {
                        c
                    };
                    edit_bind(EditCommand::InsertChar(typed))
                } else {
                    ReedlineEvent::Nothing
                }
            },
            _ => ReedlineEvent::Nothing,
        }
    }

    /// Whether keys of a sequence are waiting.
    pub fn has_pending_sequence(&self) -> (r: bool)
        ensures
            r == (self.keys().len() > 0),
    {
        self.sequence_state.is_pending()
    }

    /// Gives up waiting for the rest of a sequence.
    pub fn flush_pending_sequence(&mut self) -> (r: Option<ReedlineEvent>)
        requires
            old(self).wf(),
        ensures
            final(self).wf(),
            final(self).bindings() == old(self).bindings(),
            final(self).sequences() == old(self).sequences(),
            final(self).keys().len() == 0,
            final(self).pending() is None,
            option_event_view(r) == emacs_flush(old(self).bindings(), old(self).keys(), old(self).pending()),
    {
        let ghost m = self.keybindings.combos();
        let ghost keys = flushed_keys(self.keys(), self.pending());
        let ghost head = flushed_head(self.keys(), self.pending());
        let keybindings = &self.keybindings;
        let fallback = |combo: KeyCombination| -> (e: ReedlineEvent)
            requires
                keybindings.wf(),
            ensures
                e@ == single_key(keybindings.combos(), combo),
            { Emacs::single_key_event(keybindings, combo) };
        let r = self.sequence_state.flush(fallback);
        proof {
            let fb = choose|fb: Seq<ReedlineEvent>|
                #![trigger events_view(fb)]
                fb.len() == keys.len() && (forall|i: int|
                    0 <= i < keys.len() ==> call_ensures(fallback, (keys[i],), #[trigger] fb[i]))
                    && option_event_view(r) == finish(head + drop_nothing(events_view(fb)));
            lemma_events_view_len(fb);
            assert forall|i: int| 0 <= i < keys.len() implies #[trigger] events_view(fb)[i]
                == single_keys(m, keys)[i] by {
                assert(call_ensures(fallback, (keys[i],), fb[i]));
            }
            assert(events_view(fb) =~= single_keys(m, keys));
        }
        r
    }

    /// `event`, after what flushing the waiting keys gives.
    fn with_flushed_sequence(&mut self, event: ReedlineEvent) -> (r: ReedlineEvent)
        requires
            old(self).wf(),
        ensures
            final(self).wf(),
            final(self).bindings() == old(self).bindings(),
            final(self).sequences() == old(self).sequences(),
            final(self).keys().len() == 0,
            final(self).pending() is None,
            r@ == flushed_with(
                emacs_flush(old(self).bindings(), old(self).keys(), old(self).pending()),
                event@,
            ),
    {
        let flushed = self.flush_pending_sequence();
        let flush_event = match flushed {
            None => {
                return event;
            },
            Some(f) => f,
        };
        if matches!(event, ReedlineEvent::Nothing) {
            return flush_event;
        }
        match flush_event {
            ReedlineEvent::Multiple(events) => {
                let mut events = events;
                let ghost before = events@;
                events.push(event);
                proof {
                    lemma_events_view_push(before, event);
                }
                ReedlineEvent::Multiple(events)
            },
            other => {
                let ghost (vo, ve) = (other@, event@);
                let v = vec![other, event];
                proof {
                    lemma_events_view_len(v@);
                    assert(events_view(v@) =~= seq![vo, ve]);
                }
                ReedlineEvent::Multiple(v)
            },
        }
    }

    /// Turns one input event into editor events, as Emacs mode does.
    pub fn parse_emacs_event(&mut self, event: InputEvent) -> (r: ReedlineEvent)
        requires
            old(self).wf(),
        ensures
            emacs_parsed(*old(self), *final(self), event, r),
    {
        let ghost o = *self;
        match event {
            InputEvent::Key { code, modifiers } => {
                let combo = Emacs::normalize_key_combo(modifiers, code);
                let ghost m = self.keybindings.combos();
                let keybindings = &self.keybindings;
                let fallback = |combo: KeyCombination| -> (e: ReedlineEvent)
                    requires
                        keybindings.wf(),
                    ensures
                        e@ == single_key(keybindings.combos(), combo),
                    { Emacs::single_key_event(keybindings, combo) };
                let ghost seqs = keybindings.sequences();
                let ghost total = resolve(self.keys().push(combo), self.pending(), seqs);
                let r = self.sequence_state.process_combo(keybindings, combo, fallback);
                proof {
                    if seqs.len() != 0 {
                        let fb = choose|fb: Seq<ReedlineEvent>|
                            crate::edit_mode::keybindings::fallback_answers(fallback, total.2, fb)
                                && option_event_view(r) == finish(
                                drop_nothing(resolved_events(total.2, events_view(fb))),
                            );
                        lemma_events_view_len(fb);
                        assert forall|i: int| 0 <= i < total.2.len() implies #[trigger] resolved_events(
                            total.2,
                            events_view(fb),
                        )[i] == resolved_with(m, total.2)[i] by {
                            if let Resolved::Fallback(k) = total.2[i] {
                                assert(call_ensures(fallback, (k,), fb[i]));
                            }
                        }
                        assert(resolved_events(total.2, events_view(fb)) =~= resolved_with(m, total.2));
                    }
                }
                let out = match r {
                    Some(e) => e,
                    None => ReedlineEvent::Nothing,
                };
                proof {
                    let s = emacs_key_step(o.bindings(), o.sequences(), o.keys(), o.pending(), combo);
                    assert(self.keys() == s.0);
                    assert(self.pending() == s.1);
                    assert(out@ == s.2);
                }
                out
            },
            _ => {
                let ev = parse_non_key_event(event);
                let r = self.with_flushed_sequence(ev);
                proof {
                    assert(non_key_parsed(event, ev));
                    assert(r@ == flushed_with(emacs_flush(o.bindings(), o.keys(), o.pending()), ev@));
                }
                r
            },
        }
    }
}

impl Default for Emacs {
    fn default() -> (r: Self)
        ensures
            r.wf(),
            r.bindings() == emacs_bindings(),
            r.sequences() == Map::<Seq<KeyCombination>, EventView>::empty(),
            r.keys().len() == 0,
            r.pending() is None,
    {
        Emacs { keybindings: default_emacs_keybindings(), sequence_state: KeySequenceState::new() }
    }
}

impl EditMode for Emacs {
    open spec fn ready(&self) -> bool {
        self.wf()
    }

    open spec fn accepts(&self, event: InputEvent) -> bool {
        true
    }

    fn parse_event(&mut self, event: InputEvent) -> (r: ReedlineEvent)
        ensures
            emacs_parsed(*old(self), *final(self), event, r),
    {
        self.parse_emacs_event(event)
    }

    fn edit_mode(&self) -> (r: PromptEditMode)
        ensures
            r == PromptEditMode::Emacs,
    {
        PromptEditMode::Emacs
    }
}

// ── Laws ──────────────────────────────────────────────────────────────
/// With no key sequences bound, a key whose combination is bound gives
/// exactly its binding: an added binding overrides typing and the
/// defaults alike.
pub proof fn bound_key_gives_its_binding(
    m: Map<KeyCombination, EventView>,
    keys: Seq<KeyCombination>,
    pending: Option<(nat, EventView)>,
    modifiers: KeyModifiers,
    code: KeyCode,
)
    requires
        m.dom().contains(normalized_combo(modifiers, code)),
    ensures
        ({
            let s = emacs_key_step(
                m,
                Map::<Seq<KeyCombination>, EventView>::empty(),
                keys,
                pending,
                normalized_combo(modifiers, code),
            );
            s.2 == m[normalized_combo(modifiers, code)] && s.0.len() == 0 && s.1 is None
        }),
{
    assert(Map::<Seq<KeyCombination>, EventView>::empty().len() == 0) by {
        vstd::set_lib::lemma_set_empty_equivalency_len(
            Map::<Seq<KeyCombination>, EventView>::empty().dom(),
        );
    }
}

/// With no key sequences bound, an unbound character typed without
/// modifiers is inserted as it is.
pub proof fn unbound_plain_character_is_typed(
    m: Map<KeyCombination, EventView>,
    keys: Seq<KeyCombination>,
    pending: Option<(nat, EventView)>,
    c: char,
)
    requires
        !m.dom().contains(normalized_combo(KeyModifiers { bits: 0 }, KeyCode::Char(c))),
    ensures
        emacs_key_step(
            m,
            Map::<Seq<KeyCombination>, EventView>::empty(),
            keys,
            pending,
            normalized_combo(KeyModifiers { bits: 0 }, KeyCode::Char(c)),
        ).2 == EventView::Edit(seq![EditCommand::InsertChar(c)]),
{
    assert(Map::<Seq<KeyCombination>, EventView>::empty().len() == 0) by {
        vstd::set_lib::lemma_set_empty_equivalency_len(
            Map::<Seq<KeyCombination>, EventView>::empty().dom(),
        );
    }
}

/// With no keys waiting, a flush yields nothing, so a non-key event comes
/// through as it is.
pub proof fn nothing_waiting_flushes_nothing(m: Map<KeyCombination, EventView>, pending: Option<(nat, EventView)>, e: EventView)
    ensures
        emacs_flush(m, Seq::empty(), pending) is None,
        flushed_with(emacs_flush(m, Seq::empty(), pending), e) == e,
{
    let keys = flushed_keys(Seq::<KeyCombination>::empty(), pending);
    assert(keys.len() == 0);
    assert(single_keys(m, keys) =~= Seq::<EventView>::empty());
    assert(drop_nothing(Seq::<EventView>::empty()) =~= Seq::<EventView>::empty());
    assert(flushed_head(Seq::<KeyCombination>::empty(), pending) + Seq::<EventView>::empty()
        =~= Seq::<EventView>::empty());
}

} // verus!
