//! Keybinding tables: single key combinations and key sequences, each
//! bound to the event it produces.
//!
//! A table is a list of entries with pairwise distinct keys; its meaning
//! is the finite map from each key to the view of its event.
use vstd::prelude::*;

use crate::enums::{
    event_view, events_view, lemma_events_view_len, lemma_events_view_push, multiple2, until_found2, until_found3, EditCommand, EventView, ReedlineEvent,
};
use crate::keys::{KeyCode, KeyCombination, KeyModifiers};

verus! {

/// Whether `e` is an `UntilFound` with no event to try, which a binding
/// may not hold.
pub open spec fn is_empty_until_found(e: EventView) -> bool {
    match e {
        EventView::UntilFound(v) => v.len() == 0,
        _ => false,
    }
}

/// The map a list of single-key entries denotes.
pub open spec fn combo_map(s: Seq<(KeyCombination, ReedlineEvent)>) -> Map<KeyCombination, EventView>
    decreases s.len(),
{
    if s.len() == 0 {
        Map::empty()
    } else {
        combo_map(s.drop_last()).insert(s.last().0, s.last().1@)
    }
}

/// The map a list of key-sequence entries denotes.
pub open spec fn sequence_map(s: Seq<(Vec<KeyCombination>, ReedlineEvent)>) -> Map<
    Seq<KeyCombination>,
    EventView,
>
    decreases s.len(),
{
    if s.len() == 0 {
        Map::empty()
    } else {
        sequence_map(s.drop_last()).insert(s.last().0@, s.last().1@)
    }
}

pub open spec fn combos_unique(s: Seq<(KeyCombination, ReedlineEvent)>) -> bool {
    forall|i: int, j: int| 0 <= i < j < s.len() ==> #[trigger] s[i].0 != #[trigger] s[j].0
}

pub open spec fn sequences_unique(s: Seq<(Vec<KeyCombination>, ReedlineEvent)>) -> bool {
    forall|i: int, j: int| 0 <= i < j < s.len() ==> #[trigger] s[i].0@ != #[trigger] s[j].0@
}

/// `seq` is a proper prefix of some bound sequence.
pub open spec fn is_proper_prefix(m: Map<Seq<KeyCombination>, EventView>, seq: Seq<KeyCombination>) -> bool {
    exists|k: Seq<KeyCombination>|
        #[trigger] m.dom().contains(k) && k.len() > seq.len() && k.take(seq.len() as int) == seq
}

proof fn lemma_combo_map_index(s: Seq<(KeyCombination, ReedlineEvent)>, i: int)
    requires
        combos_unique(s),
        0 <= i < s.len(),
    ensures
        combo_map(s).dom().contains(s[i].0),
        combo_map(s)[s[i].0] == s[i].1@,
    decreases s.len(),
{
    if i < s.len() - 1 {
        assert(s.drop_last()[i] == s[i]);
        lemma_combo_map_index(s.drop_last(), i);
    }
}

proof fn lemma_combo_map_absent(s: Seq<(KeyCombination, ReedlineEvent)>, k: KeyCombination)
    requires
        forall|i: int| 0 <= i < s.len() ==> #[trigger] s[i].0 != k,
    ensures
        !combo_map(s).dom().contains(k),
    decreases s.len(),
{
    if s.len() > 0 {
        assert forall|i: int| 0 <= i < s.drop_last().len() implies #[trigger] s.drop_last()[i].0
            != k by {
            assert(s.drop_last()[i] == s[i]);
        }
        lemma_combo_map_absent(s.drop_last(), k);
        assert(s.last() == s[s.len() - 1]);
    }
}

proof fn lemma_combo_map_remove(s: Seq<(KeyCombination, ReedlineEvent)>, i: int)
    requires
        combos_unique(s),
        0 <= i < s.len(),
    ensures
        combo_map(s.remove(i)) == combo_map(s).remove(s[i].0),
        combos_unique(s.remove(i)),
    decreases s.len(),
{
    let k = s[i].0;
    if i == s.len() - 1 {
        assert(s.remove(i) == s.drop_last());
        assert forall|j: int| 0 <= j < s.drop_last().len() implies #[trigger] s.drop_last()[j].0
            != k by {
            assert(s.drop_last()[j] == s[j]);
        }
        lemma_combo_map_absent(s.drop_last(), k);
        assert(combo_map(s.remove(i)) =~= combo_map(s).remove(k));
    } else {
        let t = s.drop_last();
        assert forall|a: int, b: int| 0 <= a < b < t.len() implies #[trigger] t[a].0
            != #[trigger] t[b].0 by {
            assert(t[a] == s[a] && t[b] == s[b]);
        }
        assert(t[i] == s[i]);
        lemma_combo_map_remove(t, i);
        assert(s.remove(i).drop_last() == t.remove(i));
        assert(s.remove(i).last() == s.last());
        assert(s.last().0 != k);
        assert(combo_map(s.remove(i)) =~= combo_map(s).remove(k));
    }
    assert forall|a: int, b: int| 0 <= a < b < s.remove(i).len() implies #[trigger] s.remove(
        i,
    )[a].0 != #[trigger] s.remove(i)[b].0 by {
        let a2 = if a < i {
            a
        } else {
            a + 1
        };
        let b2 = if b < i {
            b
        } else {
            b + 1
        };
        assert(s.remove(i)[a] == s[a2]);
        assert(s.remove(i)[b] == s[b2]);
    }
}

proof fn lemma_sequence_map_index(s: Seq<(Vec<KeyCombination>, ReedlineEvent)>, i: int)
    requires
        sequences_unique(s),
        0 <= i < s.len(),
    ensures
        sequence_map(s).dom().contains(s[i].0@),
        sequence_map(s)[s[i].0@] == s[i].1@,
    decreases s.len(),
{
    if i < s.len() - 1 {
        assert(s.drop_last()[i] == s[i]);
        lemma_sequence_map_index(s.drop_last(), i);
    }
}

proof fn lemma_sequence_map_absent(s: Seq<(Vec<KeyCombination>, ReedlineEvent)>, k: Seq<KeyCombination>)
    requires
        forall|i: int| 0 <= i < s.len() ==> #[trigger] s[i].0@ != k,
    ensures
        !sequence_map(s).dom().contains(k),
    decreases s.len(),
{
    if s.len() > 0 {
        assert forall|i: int| 0 <= i < s.drop_last().len() implies #[trigger] s.drop_last()[i].0@
            != k by {
            assert(s.drop_last()[i] == s[i]);
        }
        lemma_sequence_map_absent(s.drop_last(), k);
        assert(s.last() == s[s.len() - 1]);
    }
}

proof fn lemma_sequence_map_dom(s: Seq<(Vec<KeyCombination>, ReedlineEvent)>, k: Seq<KeyCombination>)
    requires
        sequence_map(s).dom().contains(k),
    ensures
        exists|i: int| 0 <= i < s.len() && #[trigger] s[i].0@ == k,
    decreases s.len(),
{
    if s.len() > 0 && s.last().0@ != k {
        lemma_sequence_map_dom(s.drop_last(), k);
        let i = choose|i: int| 0 <= i < s.drop_last().len() && #[trigger] s.drop_last()[i].0@ == k;
        assert(s.drop_last()[i] == s[i]);
    } else if s.len() > 0 {
        assert(s[s.len() - 1].0@ == k);
    }
}

proof fn lemma_sequence_map_remove(s: Seq<(Vec<KeyCombination>, ReedlineEvent)>, i: int)
    requires
        sequences_unique(s),
        0 <= i < s.len(),
    ensures
        sequence_map(s.remove(i)) == sequence_map(s).remove(s[i].0@),
        sequences_unique(s.remove(i)),
    decreases s.len(),
{
    let k = s[i].0@;
    if i == s.len() - 1 {
        assert(s.remove(i) == s.drop_last());
        assert forall|j: int| 0 <= j < s.drop_last().len() implies #[trigger] s.drop_last()[j].0@
            != k by {
            assert(s.drop_last()[j] == s[j]);
        }
        lemma_sequence_map_absent(s.drop_last(), k);
        assert(sequence_map(s.remove(i)) =~= sequence_map(s).remove(k));
    } else {
        let t = s.drop_last();
        assert forall|a: int, b: int| 0 <= a < b < t.len() implies #[trigger] t[a].0@
            != #[trigger] t[b].0@ by {
            assert(t[a] == s[a] && t[b] == s[b]);
        }
        assert(t[i] == s[i]);
        lemma_sequence_map_remove(t, i);
        assert(s.remove(i).drop_last() == t.remove(i));
        assert(s.remove(i).last() == s.last());
        assert(sequence_map(s.remove(i)) =~= sequence_map(s).remove(k));
    }
    assert forall|a: int, b: int| 0 <= a < b < s.remove(i).len() implies #[trigger] s.remove(
        i,
    )[a].0@ != #[trigger] s.remove(i)[b].0@ by {
        let a2 = if a < i {
            a
        } else {
            a + 1
        };
        let b2 = if b < i {
            b
        } else {
            b + 1
        };
        assert(s.remove(i)[a] == s[a2]);
        assert(s.remove(i)[b] == s[b2]);
    }
}

/// How a key sequence typed so far relates to the bound sequences.
#[derive(Debug, PartialEq, Eq)]
pub enum KeySequenceMatch {
    /// It is bound, and no longer bound sequence starts with it.
    Exact(ReedlineEvent),
    /// It is not bound, but a longer bound sequence starts with it.
    Prefix,
    /// It is bound, and a longer bound sequence starts with it too.
    ExactAndPrefix(ReedlineEvent),
    NoMatch,
}

/// The editor's keybindings: single key combinations and key sequences.
pub struct Keybindings {
    bindings: Vec<(KeyCombination, ReedlineEvent)>,
    sequence_bindings: Vec<(Vec<KeyCombination>, ReedlineEvent)>,
}

/// Two key sequences hold the same combinations.
fn same_sequence(a: &[KeyCombination], b: &[KeyCombination]) -> (r: bool)
    ensures
        r == (a@ == b@),
{
    if a.len() != b.len() {
        return false;
    }
    let mut i: usize = 0;
    while i < a.len()
        invariant
            a@.len() == b@.len(),
            i <= a@.len(),
            forall|j: int| 0 <= j < i ==> a@[j] == b@[j],
        decreases a.len() - i,
    {
        if a[i] != b[i] {
            return false;
        }
        i = i + 1;
    }
    assert(a@ =~= b@);
    true
}

/// `seq` is a proper prefix of `key`.
fn starts_longer(key: &[KeyCombination], seq: &[KeyCombination]) -> (r: bool)
    ensures
        r == (key@.len() > seq@.len() && key@.take(seq@.len() as int) == seq@),
{
    if key.len() <= seq.len() {
        return false;
    }
    let mut i: usize = 0;
    while i < seq.len()
        invariant
            key@.len() > seq@.len(),
            i <= seq@.len(),
            forall|j: int| 0 <= j < i ==> key@[j] == seq@[j],
        decreases seq.len() - i,
    {
        if key[i] != seq[i] {
            assert(key@.take(seq@.len() as int)[i as int] == key@[i as int]);
            return false;
        }
        i = i + 1;
    }
    assert(key@.take(seq@.len() as int) =~= seq@);
    true
}

impl Keybindings {
    /// The bound combinations and what they produce.
    pub closed spec fn combos(&self) -> Map<KeyCombination, EventView> {
        combo_map(self.bindings@)
    }

    /// The bound key sequences and what they produce.
    pub closed spec fn sequences(&self) -> Map<Seq<KeyCombination>, EventView> {
        sequence_map(self.sequence_bindings@)
    }

    /// No key appears twice in either list.
    pub closed spec fn wf(&self) -> bool {
        &&& combos_unique(self.bindings@)
        &&& sequences_unique(self.sequence_bindings@)
    }

    /// An empty table.
    pub fn new() -> (r: Self)
        ensures
            r.wf(),
            r.combos() == Map::<KeyCombination, EventView>::empty(),
            r.sequences() == Map::<Seq<KeyCombination>, EventView>::empty(),
    {
        Keybindings { bindings: Vec::new(), sequence_bindings: Vec::new() }
    }

    /// An empty table.
    pub fn empty() -> (r: Self)
        ensures
            r.wf(),
            r.combos() == Map::<KeyCombination, EventView>::empty(),
            r.sequences() == Map::<Seq<KeyCombination>, EventView>::empty(),
    {
        Self::new()
    }

    /// The position of the entry for `key`, if there is one.
    fn combo_index(&self, key: KeyCombination) -> (r: Option<usize>)
        requires
            self.wf(),
        ensures
            match r {
                Some(i) => i < self.bindings@.len() && self.bindings@[i as int].0 == key,
                None => !self.combos().dom().contains(key),
            },
    {
        let mut i: usize = 0;
        while i < self.bindings.len()
            invariant
                i <= self.bindings@.len(),
                forall|j: int| 0 <= j < i ==> #[trigger] self.bindings@[j].0 != key,
            decreases self.bindings.len() - i,
        {
            if self.bindings[i].0 == key {
                return Some(i);
            }
            i = i + 1;
        }
        proof {
            lemma_combo_map_absent(self.bindings@, key);
        }
        None
    }

    /// The position of the entry for `sequence`, if there is one.
    fn sequence_index(&self, sequence: &[KeyCombination]) -> (r: Option<usize>)
        requires
            self.wf(),
        ensures
            match r {
                Some(i) => i < self.sequence_bindings@.len() && self.sequence_bindings@[i as int].0@
                    == sequence@,
                None => !self.sequences().dom().contains(sequence@),
            },
    {
        let mut i: usize = 0;
        while i < self.sequence_bindings.len()
            invariant
                i <= self.sequence_bindings@.len(),
                forall|j: int| 0 <= j < i ==> #[trigger] self.sequence_bindings@[j].0@ != sequence@,
            decreases self.sequence_bindings.len() - i,
        {
            if same_sequence(self.sequence_bindings[i].0.as_slice(), sequence) {
                return Some(i);
            }
            i = i + 1;
        }
        proof {
            lemma_sequence_map_absent(self.sequence_bindings@, sequence@);
        }
        None
    }

    /// Binds `modifier` + `key_code` to `command`, replacing an earlier
    /// binding of the same combination.
    pub fn add_binding(&mut self, modifier: KeyModifiers, key_code: KeyCode, command: ReedlineEvent)
        requires
            old(self).wf(),
            !is_empty_until_found(command@),
        ensures
            final(self).wf(),
            final(self).combos() == old(self).combos().insert(
                KeyCombination { modifier, key_code },
                command@,
            ),
            final(self).sequences() == old(self).sequences(),
    {
        let key = KeyCombination { modifier, key_code };
        let ghost e = command@;
        if let Some(i) = self.combo_index(key) {
            proof {
                lemma_combo_map_remove(self.bindings@, i as int);
            }
            self.bindings.remove(i);
        }
        let ghost before = self.bindings@;
        proof {
            assert(!combo_map(before).dom().contains(key));
        }
        self.bindings.push((key, command));
        proof {
            assert(self.bindings@.drop_last() == before);
            assert forall|a: int, b: int| 0 <= a < b < self.bindings@.len() implies #[trigger] self.bindings@[a].0
                != #[trigger] self.bindings@[b].0 by {
                if b == self.bindings@.len() - 1 {
                    assert(self.bindings@[a] == before[a]);
                    if before[a].0 == key {
                        lemma_combo_map_index(before, a);
                    }
                } else {
                    assert(self.bindings@[a] == before[a] && self.bindings@[b] == before[b]);
                }
            }
            assert(combo_map(self.bindings@) =~= old(self).combos().insert(key, e));
        }
    }

    /// Binds the key sequence `sequence` to `command`, replacing an
    /// earlier binding of the same sequence.
    pub fn add_sequence_binding(&mut self, sequence: Vec<KeyCombination>, command: ReedlineEvent)
        requires
            old(self).wf(),
            sequence@.len() > 0,
            !is_empty_until_found(command@),
        ensures
            final(self).wf(),
            final(self).sequences() == old(self).sequences().insert(sequence@, command@),
            final(self).combos() == old(self).combos(),
    {
        let ghost key = sequence@;
        let ghost e = command@;
        if let Some(i) = self.sequence_index(sequence.as_slice()) {
            proof {
                lemma_sequence_map_remove(self.sequence_bindings@, i as int);
            }
            self.sequence_bindings.remove(i);
        }
        let ghost before = self.sequence_bindings@;
        self.sequence_bindings.push((sequence, command));
        proof {
            assert(self.sequence_bindings@.drop_last() == before);
            assert forall|a: int, b: int| 0 <= a < b < self.sequence_bindings@.len() implies #[trigger] self.sequence_bindings@[a].0@
                != #[trigger] self.sequence_bindings@[b].0@ by {
                if b == self.sequence_bindings@.len() - 1 {
                    assert(self.sequence_bindings@[a] == before[a]);
                    if before[a].0@ == key {
                        lemma_sequence_map_index(before, a);
                    }
                } else {
                    assert(self.sequence_bindings@[a] == before[a] && self.sequence_bindings@[b]
                        == before[b]);
                }
            }
            assert(sequence_map(self.sequence_bindings@) =~= old(self).sequences().insert(key, e));
        }
    }

    /// The event bound to `modifier` + `key_code`, if any.
    pub fn find_binding(&self, modifier: KeyModifiers, key_code: KeyCode) -> (r: Option<ReedlineEvent>)
        requires
            self.wf(),
        ensures
            ({
                let key = KeyCombination { modifier, key_code };
                match r {
                    Some(e) => self.combos().dom().contains(key) && e@ == self.combos()[key],
                    None => !self.combos().dom().contains(key),
                }
            }),
    {
        let key = KeyCombination { modifier, key_code };
        match self.combo_index(key) {
            Some(i) => {
                proof {
                    lemma_combo_map_index(self.bindings@, i as int);
                }
                Some(self.bindings[i].1.duplicate())
            },
            None => None,
        }
    }

    /// How `sequence` relates to the bound key sequences.
    pub fn sequence_match(&self, sequence: &[KeyCombination]) -> (r: KeySequenceMatch)
        requires
            self.wf(),
        ensures
            ({
                let m = self.sequences();
                let s = sequence@;
                if s.len() == 0 || m.len() == 0 {
                    r == KeySequenceMatch::NoMatch
                } else {
                    match r {
                        KeySequenceMatch::Exact(e) => m.dom().contains(s) && e@ == m[s]
                            && !is_proper_prefix(m, s),
                        KeySequenceMatch::ExactAndPrefix(e) => m.dom().contains(s) && e@ == m[s]
                            && is_proper_prefix(m, s),
                        KeySequenceMatch::Prefix => !m.dom().contains(s) && is_proper_prefix(m, s),
                        KeySequenceMatch::NoMatch => !m.dom().contains(s) && !is_proper_prefix(
                            m,
                            s,
                        ),
                    }
                }
            }),
    {
        proof {
            self.lemma_sequences_len();
        }
        if sequence.len() == 0 || self.sequence_bindings.len() == 0 {
            return KeySequenceMatch::NoMatch;
        }
        let exact = match self.sequence_index(sequence) {
            Some(i) => {
                proof {
                    lemma_sequence_map_index(self.sequence_bindings@, i as int);
                }
                Some(self.sequence_bindings[i].1.duplicate())
            },
            None => None,
        };
        let mut is_prefix = false;
        let mut i: usize = 0;
        while i < self.sequence_bindings.len()
            invariant
                self.wf(),
                i <= self.sequence_bindings@.len(),
                is_prefix ==> is_proper_prefix(self.sequences(), sequence@),
                !is_prefix ==> forall|j: int|
                    0 <= j < i ==> !(#[trigger] self.sequence_bindings@[j].0@.len() > sequence@.len()
                        && self.sequence_bindings@[j].0@.take(sequence@.len() as int)
                        == sequence@),
            decreases self.sequence_bindings.len() - i,
        {
            if !is_prefix && starts_longer(self.sequence_bindings[i].0.as_slice(), sequence) {
                proof {
                    lemma_sequence_map_index(self.sequence_bindings@, i as int);
                    let k = self.sequence_bindings@[i as int].0@;
                    assert(self.sequences().dom().contains(k));
                }
                is_prefix = true;
            }
            i = i + 1;
        }
        proof {
            if !is_prefix && is_proper_prefix(self.sequences(), sequence@) {
                let k = choose|k: Seq<KeyCombination>|
                    #[trigger] self.sequences().dom().contains(k) && k.len() > sequence@.len()
                        && k.take(sequence@.len() as int) == sequence@;
                lemma_sequence_map_dom(self.sequence_bindings@, k);
                let j = choose|j: int|
                    0 <= j < self.sequence_bindings@.len() && #[trigger] self.sequence_bindings@[j].0@
                        == k;
                assert(self.sequence_bindings@[j].0@.len() > sequence@.len());
            }
        }
        match exact {
            Some(event) => if is_prefix {
                KeySequenceMatch::ExactAndPrefix(event)
            } else {
                KeySequenceMatch::Exact(event)
            },
            None => if is_prefix {
                KeySequenceMatch::Prefix
            } else {
                KeySequenceMatch::NoMatch
            },
        }
    }

    proof fn lemma_sequences_len(&self)
        requires
            self.wf(),
        ensures
            (self.sequence_bindings@.len() == 0) == (self.sequences().len() == 0),
            self.sequences().dom().finite(),
    {
        lemma_sequence_map_finite(self.sequence_bindings@);
        if self.sequence_bindings@.len() > 0 {
            lemma_sequence_map_index(self.sequence_bindings@, 0);
            assert(self.sequences().dom().contains(self.sequence_bindings@[0].0@));
        }
    }

    /// Removes the binding of `modifier` + `key_code`, returning the event
    /// it was bound to.
    pub fn remove_binding(&mut self, modifier: KeyModifiers, key_code: KeyCode) -> (r: Option<
        ReedlineEvent,
    >)
        requires
            old(self).wf(),
        ensures
            final(self).wf(),
            ({
                let key = KeyCombination { modifier, key_code };
                &&& final(self).combos() == old(self).combos().remove(key)
                &&& match r {
                    Some(e) => old(self).combos().dom().contains(key) && e@ == old(self).combos()[key],
                    None => !old(self).combos().dom().contains(key),
                }
            }),
            final(self).sequences() == old(self).sequences(),
    {
        let key = KeyCombination { modifier, key_code };
        match self.combo_index(key) {
            Some(i) => {
                proof {
                    lemma_combo_map_index(self.bindings@, i as int);
                    lemma_combo_map_remove(self.bindings@, i as int);
                }
                let (_, e) = self.bindings.remove(i);
                Some(e)
            },
            None => {
                proof {
                    assert(old(self).combos().remove(key) =~= old(self).combos());
                }
                None
            },
        }
    }

    /// Removes the binding of the key sequence `sequence`, returning the
    /// event it was bound to.
    pub fn remove_sequence_binding(&mut self, sequence: Vec<KeyCombination>) -> (r: Option<
        ReedlineEvent,
    >)
        requires
            old(self).wf(),
        ensures
            final(self).wf(),
            final(self).sequences() == old(self).sequences().remove(sequence@),
            match r {
                Some(e) => old(self).sequences().dom().contains(sequence@) && e@ == old(
                    self,
                ).sequences()[sequence@],
                None => !old(self).sequences().dom().contains(sequence@),
            },
            final(self).combos() == old(self).combos(),
    {
        match self.sequence_index(sequence.as_slice()) {
            Some(i) => {
                proof {
                    lemma_sequence_map_index(self.sequence_bindings@, i as int);
                    lemma_sequence_map_remove(self.sequence_bindings@, i as int);
                }
                let (_, e) = self.sequence_bindings.remove(i);
                Some(e)
            },
            None => {
                proof {
                    assert(old(self).sequences().remove(sequence@) =~= old(self).sequences());
                }
                None
            },
        }
    }

    /// The single-key entries, each key once.
    pub fn get_keybindings(&self) -> (r: &Vec<(KeyCombination, ReedlineEvent)>)
        ensures
            combo_map(r@) == self.combos(),
            self.wf() ==> combos_unique(r@),
    {
        &self.bindings
    }

    /// The key-sequence entries, each sequence once.
    pub fn get_sequence_keybindings(&self) -> (r: &Vec<(Vec<KeyCombination>, ReedlineEvent)>)
        ensures
            sequence_map(r@) == self.sequences(),
            self.wf() ==> sequences_unique(r@),
    {
        &self.sequence_bindings
    }
}

proof fn lemma_sequence_map_finite(s: Seq<(Vec<KeyCombination>, ReedlineEvent)>)
    ensures
        sequence_map(s).dom().finite(),
    decreases s.len(),
{
    if s.len() > 0 {
        lemma_sequence_map_finite(s.drop_last());
    }
}

impl Default for Keybindings {
    fn default() -> (r: Self)
        ensures
            r.wf(),
            r.combos() == Map::<KeyCombination, EventView>::empty(),
            r.sequences() == Map::<Seq<KeyCombination>, EventView>::empty(),
    {
        Self::new()
    }
}

/// The event that runs the single edit command `command`.
pub fn edit_bind(command: EditCommand) -> (r: ReedlineEvent)
    ensures
        r@ == EventView::Edit(seq![command]),
{
    let v = vec![command];
    proof {
        assert(v@ =~= seq![command]);
    }
    ReedlineEvent::Edit(v)
}


/// The bindings `add_common_control_bindings` adds.
pub open spec fn common_control_bindings() -> Map<KeyCombination, EventView> {
    map![
        KeyCombination { modifier: KeyModifiers { bits: 0 }, key_code: KeyCode::Esc } => EventView::Esc,
        KeyCombination { modifier: KeyModifiers { bits: 2 }, key_code: KeyCode::Char('c') } => EventView::CtrlC,
        KeyCombination { modifier: KeyModifiers { bits: 2 }, key_code: KeyCode::Char('d') } => EventView::CtrlD,
        KeyCombination { modifier: KeyModifiers { bits: 2 }, key_code: KeyCode::Char('l') } => EventView::ClearScreen,
        KeyCombination { modifier: KeyModifiers { bits: 2 }, key_code: KeyCode::Char('r') } => EventView::SearchHistory,
        KeyCombination { modifier: KeyModifiers { bits: 2 }, key_code: KeyCode::Char('o') } => EventView::OpenEditor,
    ]
}

/// The bindings every mode has: `Esc`, `Ctrl-C`, `Ctrl-D`, `Ctrl-L`
/// (clear screen), `Ctrl-R` (history search) and `Ctrl-O` (external
/// editor).
pub fn add_common_control_bindings(kb: &mut Keybindings)
    requires
        old(kb).wf(),
    ensures
        final(kb).wf(),
        final(kb).combos() == old(kb).combos().union_prefer_right(common_control_bindings()),
        final(kb).sequences() == old(kb).sequences(),
{
    let ghost m0 = kb.combos();
    kb.add_binding(KeyModifiers::none(), KeyCode::Esc, ReedlineEvent::Esc);
    kb.add_binding(KeyModifiers::control(), KeyCode::Char('c'), ReedlineEvent::CtrlC);
    kb.add_binding(KeyModifiers::control(), KeyCode::Char('d'), ReedlineEvent::CtrlD);
    kb.add_binding(KeyModifiers::control(), KeyCode::Char('l'), ReedlineEvent::ClearScreen);
    kb.add_binding(KeyModifiers::control(), KeyCode::Char('r'), ReedlineEvent::SearchHistory);
    kb.add_binding(KeyModifiers::control(), KeyCode::Char('o'), ReedlineEvent::OpenEditor);
    assert(kb.combos() =~= m0.union_prefer_right(common_control_bindings()));
}

/// The bindings `add_common_navigation_bindings` adds.
pub open spec fn common_navigation_bindings() -> Map<KeyCombination, EventView> {
    map![
        KeyCombination { modifier: KeyModifiers { bits: 0 }, key_code: KeyCode::Up } => EventView::UntilFound(seq![EventView::MenuUp, EventView::Up]),
        KeyCombination { modifier: KeyModifiers { bits: 0 }, key_code: KeyCode::Down } => EventView::UntilFound(seq![EventView::MenuDown, EventView::Down]),
        KeyCombination { modifier: KeyModifiers { bits: 0 }, key_code: KeyCode::Left } => EventView::UntilFound(seq![EventView::MenuLeft, EventView::Left]),
        KeyCombination { modifier: KeyModifiers { bits: 0 }, key_code: KeyCode::Right } => EventView::UntilFound(seq![EventView::HistoryHintComplete, EventView::MenuRight, EventView::Right]),
        KeyCombination { modifier: KeyModifiers { bits: 2 }, key_code: KeyCode::Left } => EventView::Edit(seq![EditCommand::MoveWordLeft { select: false }]),
        KeyCombination { modifier: KeyModifiers { bits: 2 }, key_code: KeyCode::Right } => EventView::UntilFound(seq![EventView::HistoryHintWordComplete, EventView::Edit(seq![EditCommand::MoveWordRight { select: false }])]),
        KeyCombination { modifier: KeyModifiers { bits: 0 }, key_code: KeyCode::Home } => EventView::Edit(seq![EditCommand::MoveToLineStart { select: false }]),
        KeyCombination { modifier: KeyModifiers { bits: 2 }, key_code: KeyCode::Char('a') } => EventView::Edit(seq![EditCommand::MoveToLineStart { select: false }]),
        KeyCombination { modifier: KeyModifiers { bits: 0 }, key_code: KeyCode::End } => EventView::UntilFound(seq![EventView::HistoryHintComplete, EventView::Edit(seq![EditCommand::MoveToLineEnd { select: false }])]),
        KeyCombination { modifier: KeyModifiers { bits: 2 }, key_code: KeyCode::Char('e') } => EventView::UntilFound(seq![EventView::HistoryHintComplete, EventView::Edit(seq![EditCommand::MoveToLineEnd { select: false }])]),
        KeyCombination { modifier: KeyModifiers { bits: 2 }, key_code: KeyCode::Home } => EventView::Edit(seq![EditCommand::MoveToStart { select: false }]),
        KeyCombination { modifier: KeyModifiers { bits: 2 }, key_code: KeyCode::End } => EventView::Edit(seq![EditCommand::MoveToEnd { select: false }]),
        KeyCombination { modifier: KeyModifiers { bits: 2 }, key_code: KeyCode::Char('p') } => EventView::UntilFound(seq![EventView::MenuUp, EventView::Up]),
        KeyCombination { modifier: KeyModifiers { bits: 2 }, key_code: KeyCode::Char('n') } => EventView::UntilFound(seq![EventView::MenuDown, EventView::Down]),
    ]
}

/// The arrow keys and their `Ctrl` forms, `Home`/`End`, `Ctrl-A`/`Ctrl-E`
/// and the Emacs arrows `Ctrl-P`/`Ctrl-N`.
pub fn add_common_navigation_bindings(kb: &mut Keybindings)
    requires
        old(kb).wf(),
    ensures
        final(kb).wf(),
        final(kb).combos() == old(kb).combos().union_prefer_right(common_navigation_bindings()),
        final(kb).sequences() == old(kb).sequences(),
{
    let ghost m0 = kb.combos();
    kb.add_binding(KeyModifiers::none(), KeyCode::Up, until_found2(ReedlineEvent::MenuUp, ReedlineEvent::Up));
    kb.add_binding(KeyModifiers::none(), KeyCode::Down, until_found2(ReedlineEvent::MenuDown, ReedlineEvent::Down));
    kb.add_binding(KeyModifiers::none(), KeyCode::Left, until_found2(ReedlineEvent::MenuLeft, ReedlineEvent::Left));
    kb.add_binding(KeyModifiers::none(), KeyCode::Right, until_found3(ReedlineEvent::HistoryHintComplete, ReedlineEvent::MenuRight, ReedlineEvent::Right));
    kb.add_binding(KeyModifiers::control(), KeyCode::Left, edit_bind(EditCommand::MoveWordLeft { select: false }));
    kb.add_binding(KeyModifiers::control(), KeyCode::Right, until_found2(ReedlineEvent::HistoryHintWordComplete, edit_bind(EditCommand::MoveWordRight { select: false })));
    kb.add_binding(KeyModifiers::none(), KeyCode::Home, edit_bind(EditCommand::MoveToLineStart { select: false }));
    kb.add_binding(KeyModifiers::control(), KeyCode::Char('a'), edit_bind(EditCommand::MoveToLineStart { select: false }));
    kb.add_binding(KeyModifiers::none(), KeyCode::End, until_found2(ReedlineEvent::HistoryHintComplete, edit_bind(EditCommand::MoveToLineEnd { select: false })));
    kb.add_binding(KeyModifiers::control(), KeyCode::Char('e'), until_found2(ReedlineEvent::HistoryHintComplete, edit_bind(EditCommand::MoveToLineEnd { select: false })));
    kb.add_binding(KeyModifiers::control(), KeyCode::Home, edit_bind(EditCommand::MoveToStart { select: false }));
    kb.add_binding(KeyModifiers::control(), KeyCode::End, edit_bind(EditCommand::MoveToEnd { select: false }));
    kb.add_binding(KeyModifiers::control(), KeyCode::Char('p'), until_found2(ReedlineEvent::MenuUp, ReedlineEvent::Up));
    kb.add_binding(KeyModifiers::control(), KeyCode::Char('n'), until_found2(ReedlineEvent::MenuDown, ReedlineEvent::Down));
    assert(kb.combos() =~= m0.union_prefer_right(common_navigation_bindings()));
}

/// The bindings `add_common_edit_bindings` adds.
pub open spec fn common_edit_bindings() -> Map<KeyCombination, EventView> {
    map![
        KeyCombination { modifier: KeyModifiers { bits: 0 }, key_code: KeyCode::Backspace } => EventView::Edit(seq![EditCommand::Backspace]),
        KeyCombination { modifier: KeyModifiers { bits: 0 }, key_code: KeyCode::Delete } => EventView::Edit(seq![EditCommand::Delete]),
        KeyCombination { modifier: KeyModifiers { bits: 2 }, key_code: KeyCode::Backspace } => EventView::Edit(seq![EditCommand::BackspaceWord]),
        KeyCombination { modifier: KeyModifiers { bits: 2 }, key_code: KeyCode::Delete } => EventView::Edit(seq![EditCommand::DeleteWord]),
        KeyCombination { modifier: KeyModifiers { bits: 2 }, key_code: KeyCode::Char('h') } => EventView::Edit(seq![EditCommand::Backspace]),
        KeyCombination { modifier: KeyModifiers { bits: 2 }, key_code: KeyCode::Char('w') } => EventView::Edit(seq![EditCommand::BackspaceWord]),
        KeyCombination { modifier: KeyModifiers { bits: 4 }, key_code: KeyCode::Enter } => EventView::Edit(seq![EditCommand::InsertNewline]),
        KeyCombination { modifier: KeyModifiers { bits: 1 }, key_code: KeyCode::Enter } => EventView::Edit(seq![EditCommand::InsertNewline]),
        KeyCombination { modifier: KeyModifiers { bits: 2 }, key_code: KeyCode::Char('j') } => EventView::Enter,
    ]
}

/// `Backspace`, `Delete` and their word-wise `Ctrl` forms, `Ctrl-H`,
/// `Ctrl-W`, newline on `Alt`/`Shift`-`Enter`, and `Ctrl-J` to submit.
pub fn add_common_edit_bindings(kb: &mut Keybindings)
    requires
        old(kb).wf(),
    ensures
        final(kb).wf(),
        final(kb).combos() == old(kb).combos().union_prefer_right(common_edit_bindings()),
        final(kb).sequences() == old(kb).sequences(),
{
    let ghost m0 = kb.combos();
    kb.add_binding(KeyModifiers::none(), KeyCode::Backspace, edit_bind(EditCommand::Backspace));
    kb.add_binding(KeyModifiers::none(), KeyCode::Delete, edit_bind(EditCommand::Delete));
    kb.add_binding(KeyModifiers::control(), KeyCode::Backspace, edit_bind(EditCommand::BackspaceWord));
    kb.add_binding(KeyModifiers::control(), KeyCode::Delete, edit_bind(EditCommand::DeleteWord));
    kb.add_binding(KeyModifiers::control(), KeyCode::Char('h'), edit_bind(EditCommand::Backspace));
    kb.add_binding(KeyModifiers::control(), KeyCode::Char('w'), edit_bind(EditCommand::BackspaceWord));
    kb.add_binding(KeyModifiers::alt(), KeyCode::Enter, edit_bind(EditCommand::InsertNewline));
    kb.add_binding(KeyModifiers::shift(), KeyCode::Enter, edit_bind(EditCommand::InsertNewline));
    kb.add_binding(KeyModifiers::control(), KeyCode::Char('j'), ReedlineEvent::Enter);
    assert(kb.combos() =~= m0.union_prefer_right(common_edit_bindings()));
}

/// The bindings `add_common_selection_bindings` adds.
pub open spec fn common_selection_bindings() -> Map<KeyCombination, EventView> {
    map![
        KeyCombination { modifier: KeyModifiers { bits: 1 }, key_code: KeyCode::Left } => EventView::Edit(seq![EditCommand::MoveLeft { select: true }]),
        KeyCombination { modifier: KeyModifiers { bits: 1 }, key_code: KeyCode::Right } => EventView::Edit(seq![EditCommand::MoveRight { select: true }]),
        KeyCombination { modifier: KeyModifiers { bits: 3 }, key_code: KeyCode::Left } => EventView::Edit(seq![EditCommand::MoveWordLeft { select: true }]),
        KeyCombination { modifier: KeyModifiers { bits: 3 }, key_code: KeyCode::Right } => EventView::Edit(seq![EditCommand::MoveWordRight { select: true }]),
        KeyCombination { modifier: KeyModifiers { bits: 1 }, key_code: KeyCode::End } => EventView::Edit(seq![EditCommand::MoveToLineEnd { select: true }]),
        KeyCombination { modifier: KeyModifiers { bits: 3 }, key_code: KeyCode::End } => EventView::Edit(seq![EditCommand::MoveToEnd { select: true }]),
        KeyCombination { modifier: KeyModifiers { bits: 1 }, key_code: KeyCode::Home } => EventView::Edit(seq![EditCommand::MoveToLineStart { select: true }]),
        KeyCombination { modifier: KeyModifiers { bits: 3 }, key_code: KeyCode::Home } => EventView::Edit(seq![EditCommand::MoveToStart { select: true }]),
        KeyCombination { modifier: KeyModifiers { bits: 3 }, key_code: KeyCode::Char('a') } => EventView::Edit(seq![EditCommand::SelectAll]),
    ]
}

/// `Shift` (and `Shift-Ctrl`) with the arrows, `Home` and `End` extend
/// the selection; `Shift-Ctrl-A` selects everything.
pub fn add_common_selection_bindings(kb: &mut Keybindings)
    requires
        old(kb).wf(),
    ensures
        final(kb).wf(),
        final(kb).combos() == old(kb).combos().union_prefer_right(common_selection_bindings()),
        final(kb).sequences() == old(kb).sequences(),
{
    let ghost m0 = kb.combos();
    kb.add_binding(KeyModifiers::shift(), KeyCode::Left, edit_bind(EditCommand::MoveLeft { select: true }));
    kb.add_binding(KeyModifiers::shift(), KeyCode::Right, edit_bind(EditCommand::MoveRight { select: true }));
    kb.add_binding(KeyModifiers::shift_control(), KeyCode::Left, edit_bind(EditCommand::MoveWordLeft { select: true }));
    kb.add_binding(KeyModifiers::shift_control(), KeyCode::Right, edit_bind(EditCommand::MoveWordRight { select: true }));
    kb.add_binding(KeyModifiers::shift(), KeyCode::End, edit_bind(EditCommand::MoveToLineEnd { select: true }));
    kb.add_binding(KeyModifiers::shift_control(), KeyCode::End, edit_bind(EditCommand::MoveToEnd { select: true }));
    kb.add_binding(KeyModifiers::shift(), KeyCode::Home, edit_bind(EditCommand::MoveToLineStart { select: true }));
    kb.add_binding(KeyModifiers::shift_control(), KeyCode::Home, edit_bind(EditCommand::MoveToStart { select: true }));
    kb.add_binding(KeyModifiers::shift_control(), KeyCode::Char('a'), edit_bind(EditCommand::SelectAll));
    assert(kb.combos() =~= m0.union_prefer_right(common_selection_bindings()));
}


// ── Key sequences typed one combination at a time ─────────────────────
/// What resolving the typed keys yields, in order: the keys of a bound
/// sequence with its event, or a single combination left to the caller's
/// fallback.
pub enum Resolved {
    Bound(Seq<KeyCombination>, EventView),
    Fallback(KeyCombination),
}

/// The pending keys `buf`, with an earlier exact match `pending` (its
/// length and event), resolved against the bound sequences `m`: the keys
/// left pending, the exact match still remembered, and what was
/// resolved. A sequence that is exact and no prefix fires; one that is
/// also a prefix is remembered and waits; a prefix waits; a miss fires
/// the remembered match and goes on with the keys after it, or else
/// hands the first key to the fallback and goes on with the rest.
pub open spec fn resolve(buf: Seq<KeyCombination>, pending: Option<(nat, EventView)>, m: Map<Seq<KeyCombination>, EventView>) -> (Seq<KeyCombination>, Option<(nat, EventView)>, Seq<Resolved>)
    decreases buf.len(), (if pending is Some {
        1int
    } else {
        0int
    }),
{
    let exact = buf.len() > 0 && m.len() > 0 && m.dom().contains(buf);
    let prefix = buf.len() > 0 && m.len() > 0 && is_proper_prefix(m, buf);
    if exact && !prefix {
        (Seq::empty(), None, seq![Resolved::Bound(buf, m[buf])])
    } else if exact && prefix {
        (buf, Some((buf.len(), m[buf])), Seq::empty())
    } else if prefix {
        (buf, None, Seq::empty())
    } else {
        match pending {
            Some((plen, pev)) => {
                let fired = if plen < buf.len() {
                    buf.take(plen as int)
                } else {
                    buf
                };
                let rem = if plen < buf.len() {
                    buf.skip(plen as int)
                } else {
                    Seq::empty()
                };
                if rem.len() == 0 {
                    (rem, None, seq![Resolved::Bound(fired, pev)])
                } else {
                    let r = resolve(rem, None, m);
                    (r.0, r.1, seq![Resolved::Bound(fired, pev)] + r.2)
                }
            },
            None => if buf.len() == 0 {
                (buf, None, Seq::empty())
            } else {
                let rest = buf.drop_first();
                if rest.len() == 0 {
                    (rest, None, seq![Resolved::Fallback(buf[0])])
                } else {
                    let r = resolve(rest, None, m);
                    (r.0, r.1, seq![Resolved::Fallback(buf[0])] + r.2)
                }
            },
        }
    }
}

/// The events of resolved items, with `fb[i]` what the fallback gave for
/// item `i`.
pub open spec fn resolved_events(outs: Seq<Resolved>, fb: Seq<EventView>) -> Seq<EventView> {
    Seq::new(
        outs.len(),
        |i: int|
            match outs[i] {
                Resolved::Bound(_, e) => e,
                Resolved::Fallback(_) => fb[i],
            },
    )
}

/// `s` without the empty events.
pub open spec fn drop_nothing(s: Seq<EventView>) -> Seq<EventView>
    decreases s.len(),
{
    if s.len() == 0 {
        Seq::empty()
    } else if s.last() == EventView::Nothing {
        drop_nothing(s.drop_last())
    } else {
        drop_nothing(s.drop_last()).push(s.last())
    }
}

/// No event, one event, or all of them together.
pub open spec fn finish(s: Seq<EventView>) -> Option<EventView> {
    if s.len() == 0 {
        None
    } else if s.len() == 1 {
        Some(s[0])
    } else {
        Some(EventView::Multiple(s))
    }
}

pub open spec fn option_event_view(o: Option<ReedlineEvent>) -> Option<EventView> {
    match o {
        Some(e) => Some(e@),
        None => None,
    }
}

/// The fallback's answers `fb` fit what it may return for the items left
/// to it.
pub open spec fn fallback_answers<F: Fn(KeyCombination) -> ReedlineEvent>(f: F, outs: Seq<Resolved>, fb: Seq<ReedlineEvent>) -> bool {
    &&& fb.len() == outs.len()
    &&& forall|i: int|
        0 <= i < outs.len() ==> (#[trigger] outs[i] matches Resolved::Fallback(k) ==> call_ensures(
            f,
            (k,),
            fb[i],
        ))
}

/// Appending one resolved item and its event keeps the events in step.
proof fn lemma_resolved_push(raw: Seq<ReedlineEvent>, outs: Seq<Resolved>, fb: Seq<ReedlineEvent>, o: Resolved, ev: ReedlineEvent)
    requires
        events_view(raw) == resolved_events(outs, events_view(fb)),
        fb.len() == outs.len(),
        o matches Resolved::Bound(_, e) ==> e == event_view(ev),
    ensures
        events_view(raw.push(ev)) == resolved_events(outs.push(o), events_view(fb.push(ev))),
{
    lemma_events_view_push(raw, ev);
    lemma_events_view_len(fb);
    lemma_events_view_len(fb.push(ev));
    assert(events_view(raw.push(ev)) =~= resolved_events(outs.push(o), events_view(fb.push(ev))));
}

/// The keys typed so far of a sequence that may still grow, with the
/// longest exact match among them.
pub struct KeySequenceState {
    buffer: Vec<KeyCombination>,
    pending_exact: Option<(usize, ReedlineEvent)>,
}

/// Turns `head`, followed by the events of `v` that are not empty, into
/// the result.
fn finish_events(head: Vec<ReedlineEvent>, v: Vec<ReedlineEvent>) -> (r: Option<ReedlineEvent>)
    ensures
        option_event_view(r) == finish(events_view(head@) + drop_nothing(events_view(v@))),
{
    let mut kept: Vec<ReedlineEvent> = head;
    let ghost head_view = events_view(kept@);
    let mut i: usize = 0;
    proof {
        lemma_events_view_len(v@);
        assert(events_view(v@).take(0) =~= Seq::<EventView>::empty());
        assert(head_view + drop_nothing(Seq::<EventView>::empty()) =~= head_view);
    }
    while i < v.len()
        invariant
            i <= v@.len(),
            events_view(v@).len() == v@.len(),
            forall|j: int| 0 <= j < v@.len() ==> #[trigger] events_view(v@)[j] == event_view(v@[j]),
            events_view(kept@) == head_view + drop_nothing(events_view(v@).take(i as int)),
        decreases v.len() - i,
    {
        proof {
            assert(events_view(v@).take(i + 1).drop_last() == events_view(v@).take(i as int));
            assert(events_view(v@).take(i + 1).last() == event_view(v@[i as int]));
        }
        if !matches!(v[i], ReedlineEvent::Nothing) {
            let ghost before = kept@;
            let e = v[i].duplicate();
            kept.push(e);
            proof {
                lemma_events_view_push(before, e);
                assert(events_view(kept@) =~= head_view + drop_nothing(events_view(v@).take(i + 1)));
            }
        }
        i = i + 1;
    }
    proof {
        assert(events_view(v@).take(v@.len() as int) == events_view(v@));
        lemma_events_view_len(kept@);
    }
    if kept.len() == 0 {
        None
    } else if kept.len() == 1 {
        let e = kept.remove(0);
        Some(e)
    } else {
        Some(ReedlineEvent::Multiple(kept))
    }
}

/// What `fallback` gives for each key of `keys`, in order.
fn fallback_each<F: Fn(KeyCombination) -> ReedlineEvent>(keys: &Vec<KeyCombination>, fallback: &F) -> (out: Vec<ReedlineEvent>)
    requires
        forall|k: KeyCombination| call_requires(*fallback, (k,)),
    ensures
        out@.len() == keys@.len(),
        forall|i: int| 0 <= i < keys@.len() ==> call_ensures(*fallback, (keys@[i],), #[trigger] out@[i]),
{
    let mut out: Vec<ReedlineEvent> = Vec::new();
    let mut i: usize = 0;
    while i < keys.len()
        invariant
            i <= keys@.len(),
            out@.len() == i,
            forall|k: KeyCombination| call_requires(*fallback, (k,)),
            forall|j: int| 0 <= j < i ==> call_ensures(*fallback, (keys@[j],), #[trigger] out@[j]),
        decreases keys.len() - i,
    {
        let event = fallback(keys[i]);
        out.push(event);
        i = i + 1;
    }
    out
}

/// The keys that a flush hands to the fallback: those after the
/// remembered exact match, or all of them.
pub open spec fn flushed_keys(keys: Seq<KeyCombination>, pending: Option<(nat, EventView)>) -> Seq<KeyCombination> {
    match pending {
        Some((plen, _)) => if plen < keys.len() {
            keys.skip(plen as int)
        } else {
            Seq::empty()
        },
        None => keys,
    }
}

/// The event that a flush fires first: the remembered exact match, when
/// keys are waiting.
pub open spec fn flushed_head(keys: Seq<KeyCombination>, pending: Option<(nat, EventView)>) -> Seq<EventView> {
    match pending {
        Some((_, e)) => if keys.len() > 0 {
            seq![e]
        } else {
            Seq::empty()
        },
        None => Seq::empty(),
    }
}

impl KeySequenceState {
    pub closed spec fn keys(&self) -> Seq<KeyCombination> {
        self.buffer@
    }

    pub closed spec fn pending(&self) -> Option<(nat, EventView)> {
        match self.pending_exact {
            Some((n, e)) => Some((n as nat, e@)),
            None => None,
        }
    }

    /// Nothing typed yet.
    pub fn new() -> (r: Self)
        ensures
            r.keys().len() == 0,
            r.pending() is None,
    {
        KeySequenceState { buffer: Vec::new(), pending_exact: None }
    }

    /// Whether keys are waiting.
    pub fn is_pending(&self) -> (r: bool)
        ensures
            r == (self.keys().len() > 0),
    {
        self.buffer.len() > 0
    }

    /// Forgets the keys typed so far.
    pub fn clear(&mut self)
        ensures
            final(self).keys().len() == 0,
            final(self).pending() is None,
    {
        self.buffer.clear();
        self.pending_exact = None;
    }

    /// Takes the key `combo`. Without bound sequences it goes to
    /// `fallback` at once. Otherwise the typed keys are resolved against
    /// the bound sequences; keys no sequence can complete go to
    /// `fallback` one by one, and the events that are not empty come out
    /// together.
    pub fn process_combo<F: Fn(KeyCombination) -> ReedlineEvent>(
        &mut self,
        keybindings: &Keybindings,
        combo: KeyCombination,
        fallback: F,
    ) -> (r: Option<ReedlineEvent>)
        requires
            keybindings.wf(),
            forall|k: KeyCombination| call_requires(fallback, (k,)),
        ensures
            ({
                let m = keybindings.sequences();
                if m.len() == 0 {
                    &&& final(self).keys().len() == 0
                    &&& final(self).pending() is None
                    &&& r matches Some(e) && call_ensures(fallback, (combo,), e)
                } else {
                    let total = resolve(old(self).keys().push(combo), old(self).pending(), m);
                    &&& final(self).keys() == total.0
                    &&& final(self).pending() == total.1
                    &&& exists|fb: Seq<ReedlineEvent>|
                        fallback_answers(fallback, total.2, fb) && option_event_view(r) == finish(
                            drop_nothing(resolved_events(total.2, events_view(fb))),
                        )
                }
            }),
    {
        let ghost m = keybindings.sequences();
        proof {
            keybindings.lemma_sequences_len();
        }
        if keybindings.sequence_bindings.len() == 0 {
            self.clear();
            return Some(fallback(combo));
        }
        self.buffer.push(combo);
        let ghost total = resolve(self.buffer@, self.pending(), m);
        let mut raw: Vec<ReedlineEvent> = Vec::new();
        let ghost mut outs: Seq<Resolved> = Seq::empty();
        let ghost mut fb: Seq<ReedlineEvent> = Seq::empty();
        loop
            invariant_except_break
                self.buffer@.len() > 0,
                resolve(self.buffer@, self.pending(), m).0 == total.0,
                resolve(self.buffer@, self.pending(), m).1 == total.1,
                outs + resolve(self.buffer@, self.pending(), m).2 == total.2,
            invariant
                keybindings.wf(),
                m == keybindings.sequences(),
                m.len() > 0,
                forall|k: KeyCombination| call_requires(fallback, (k,)),
                fb.len() == outs.len(),
                fallback_answers(fallback, outs, fb),
                events_view(raw@) == resolved_events(outs, events_view(fb)),
            ensures
                self.buffer@ == total.0,
                self.pending() == total.1,
                outs == total.2,
                fallback_answers(fallback, outs, fb),
                events_view(raw@) == resolved_events(outs, events_view(fb)),
            decreases self.buffer@.len(), (if self.pending_exact is Some {
                1int
            } else {
                0int
            }),
        {
            let ghost buf = self.buffer@;
            let ghost pend = self.pending();
            let ghost step = resolve(buf, pend, m);
            match keybindings.sequence_match(self.buffer.as_slice()) {
                KeySequenceMatch::Exact(event) => {
                    self.buffer.clear();
                    self.pending_exact = None;
                    let ghost e = event@;
                    let ghost before = raw@;
                    raw.push(event);
                    proof {
                        lemma_resolved_push(before, outs, fb, Resolved::Bound(buf, e), event);
                        outs = outs.push(Resolved::Bound(buf, e));
                        fb = fb.push(event);
                        assert(step.2 == seq![Resolved::Bound(buf, e)]);
                    }
                    break;
                },
                KeySequenceMatch::ExactAndPrefix(event) => {
                    self.pending_exact = Some((self.buffer.len(), event));
                    proof {
                        assert(outs + step.2 == outs);
                    }
                    break;
                },
                KeySequenceMatch::Prefix => {
                    self.pending_exact = None;
                    proof {
                        assert(outs + step.2 == outs);
                    }
                    break;
                },
                KeySequenceMatch::NoMatch => {
                    let taken = self.pending_exact.take();
                    match taken {
                        Some((pending_len, pending_event)) => {
                            let remaining = if pending_len < self.buffer.len() {
                                self.buffer.split_off(pending_len)
                            } else {
                                Vec::new()
                            };
                            proof {
                                if pending_len < buf.len() {
                                    assert(remaining@ == buf.skip(pending_len as int));
                                }
                            }
                            self.buffer = remaining;
                            let ghost e = pending_event@;
                            let ghost fired = if (pending_len as int) < buf.len() {
                                buf.take(pending_len as int)
                            } else {
                                buf
                            };
                            let ghost before = raw@;
                            raw.push(pending_event);
                            proof {
                                lemma_resolved_push(before, outs, fb, Resolved::Bound(fired, e), pending_event);
                                outs = outs.push(Resolved::Bound(fired, e));
                                fb = fb.push(pending_event);
                            }
                            if self.buffer.len() == 0 {
                                proof {
                                    assert(step.2 == seq![Resolved::Bound(fired, e)]);
                                }
                                break;
                            }
                            proof {
                                let r2 = resolve(self.buffer@, None, m);
                                assert(step.2 == seq![Resolved::Bound(fired, e)] + r2.2);
                                assert(outs + r2.2 == total.2);
                            }
                        },
                        None => {
                            let flushed = self.buffer.remove(0);
                            let event = fallback(flushed);
                            let ghost before = raw@;
                            raw.push(event);
                            proof {
                                lemma_resolved_push(before, outs, fb, Resolved::Fallback(flushed), event);
                                outs = outs.push(Resolved::Fallback(flushed));
                                fb = fb.push(event);
                                assert(self.buffer@ == buf.drop_first());
                            }
                            if self.buffer.len() == 0 {
                                proof {
                                    assert(step.2 == seq![Resolved::Fallback(flushed)]);
                                }
                                break;
                            }
                            proof {
                                let r2 = resolve(self.buffer@, None, m);
                                assert(step.2 == seq![Resolved::Fallback(flushed)] + r2.2);
                                assert(outs + r2.2 == total.2);
                            }
                        },
                    }
                },
            }
        }
        let r = finish_events(Vec::new(), raw);
        proof {
            assert(events_view(Seq::<ReedlineEvent>::empty()) + drop_nothing(
                resolved_events(total.2, events_view(fb)),
            ) =~= drop_nothing(resolved_events(total.2, events_view(fb))));
        }
        proof {
            assert(fallback_answers(fallback, total.2, fb));
        }
        r
    }
}

impl KeySequenceState {
    /// Gives up waiting: the remembered exact match fires, and the keys
    /// typed after it, or all keys when none was remembered, go to
    /// `fallback` one by one; the events that are not empty come out
    /// after it. Nothing is left pending.
    pub fn flush<F: Fn(KeyCombination) -> ReedlineEvent>(&mut self, fallback: F) -> (r: Option<ReedlineEvent>)
        requires
            forall|k: KeyCombination| call_requires(fallback, (k,)),
        ensures
            final(self).keys().len() == 0,
            final(self).pending() is None,
            ({
                let keys = flushed_keys(old(self).keys(), old(self).pending());
                exists|fb: Seq<ReedlineEvent>|
                    #![trigger events_view(fb)]
                    fb.len() == keys.len() && (forall|i: int|
                        0 <= i < keys.len() ==> call_ensures(fallback, (keys[i],), #[trigger] fb[i]))
                        && option_event_view(r) == finish(
                        flushed_head(old(self).keys(), old(self).pending()) + drop_nothing(events_view(fb)),
                    )
            }),
    {
        if self.buffer.len() == 0 {
            self.pending_exact = None;
            proof {
                let fb = Seq::<ReedlineEvent>::empty();
                assert(events_view(fb) =~= Seq::<EventView>::empty());
                assert(flushed_head(old(self).keys(), old(self).pending()) + drop_nothing(
                    events_view(fb),
                ) =~= Seq::<EventView>::empty());
            }
            return None;
        }
        let taken = self.pending_exact.take();
        match taken {
            Some((pending_len, pending_event)) => {
                let ghost keys = self.buffer@;
                let remaining = if pending_len < self.buffer.len() {
                    self.buffer.split_off(pending_len)
                } else {
                    Vec::new()
                };
                self.buffer.clear();
                proof {
                    if pending_len < keys.len() {
                        assert(remaining@ == keys.skip(pending_len as int));
                    } else {
                        assert(remaining@ =~= Seq::<KeyCombination>::empty());
                    }
                }
                let raw = fallback_each(&remaining, &fallback);
                let ghost fb = raw@;
                let ghost e = pending_event@;
                let head = vec![pending_event];
                proof {
                    assert(head@ == seq![pending_event]);
                    assert(events_view(head@) =~= seq![e]) by {
                        lemma_events_view_len(head@);
                    }
                }
                let r = finish_events(head, raw);
                proof {
                    assert(events_view(fb) == events_view(fb));
                }
                r
            },
            None => {
                let ghost keys = self.buffer@;
                let raw = fallback_each(&self.buffer, &fallback);
                self.buffer.clear();
                let ghost fb = raw@;
                let r = finish_events(Vec::new(), raw);
                proof {
                    assert(events_view(Seq::<ReedlineEvent>::empty()) + drop_nothing(events_view(fb))
                        =~= drop_nothing(events_view(fb)));
                    assert(flushed_head(keys, None) + drop_nothing(events_view(fb)) =~= drop_nothing(
                        events_view(fb),
                    ));
                    assert(events_view(fb) == events_view(fb));
                }
                r
            },
        }
    }
}

impl Default for KeySequenceState {
    fn default() -> (r: Self)
        ensures
            r.keys().len() == 0,
            r.pending() is None,
    {
        KeySequenceState::new()
    }
}

// ── Laws ──────────────────────────────────────────────────────────────
/// What `add_binding` binds, `find_binding` finds: the combination just
/// bound is found with its event, and every other bound combination is
/// found as before.
pub proof fn added_binding_is_found(before: Keybindings, after: Keybindings, key: KeyCombination, e: EventView)
    requires
        after.combos() == before.combos().insert(key, e),
    ensures
        after.combos().dom().contains(key),
        after.combos()[key] == e,
        forall|k: KeyCombination|
            k != key ==> (#[trigger] after.combos().dom().contains(k) == before.combos().dom().contains(k)),
        forall|k: KeyCombination|
            k != key && before.combos().dom().contains(k) ==> #[trigger] after.combos()[k]
                == before.combos()[k],
{
}

/// Removing a combination just bound hands back the event it was bound
/// to, and leaves the table as it was without that combination; when
/// the combination was not bound before, exactly as it was.
pub proof fn remove_undoes_add(before: Keybindings, added: Keybindings, removed: Keybindings, key: KeyCombination, e: EventView)
    requires
        added.combos() == before.combos().insert(key, e),
        removed.combos() == added.combos().remove(key),
    ensures
        added.combos().dom().contains(key),
        added.combos()[key] == e,
        removed.combos() == before.combos().remove(key),
        !before.combos().dom().contains(key) ==> removed.combos() == before.combos(),
{
    assert(removed.combos() =~= before.combos().remove(key));
    if !before.combos().dom().contains(key) {
        assert(before.combos().remove(key) =~= before.combos());
    }
}

/// A key sequence just bound is matched exactly, with its event: there
/// are bound sequences, and this one is among them.
pub proof fn added_sequence_matches_exactly(before: Keybindings, after: Keybindings, keys: Seq<KeyCombination>, e: EventView)
    requires
        after.wf(),
        after.sequences() == before.sequences().insert(keys, e),
    ensures
        after.sequences().len() > 0,
        after.sequences().dom().contains(keys),
        after.sequences()[keys] == e,
{
    lemma_sequence_map_finite(after.sequence_bindings@);
    assert(after.sequences().dom().contains(keys));
    vstd::set_lib::lemma_set_empty_equivalency_len(after.sequences().dom());
}

/// Keys are only held back while they can still grow into a bound
/// sequence, and a remembered match is the waiting keys themselves,
/// bound to its event.
pub proof fn waiting_keys_can_still_match(buf: Seq<KeyCombination>, pending: Option<(nat, EventView)>, m: Map<Seq<KeyCombination>, EventView>)
    ensures
        ({
            let r = resolve(buf, pending, m);
            &&& r.0.len() > 0 ==> is_proper_prefix(m, r.0)
            &&& r.1 matches Some((n, e)) ==> n == r.0.len() && m.dom().contains(r.0) && m[r.0] == e
        }),
    decreases buf.len(), (if pending is Some {
        1int
    } else {
        0int
    }),
{
    let exact = buf.len() > 0 && m.len() > 0 && m.dom().contains(buf);
    let prefix = buf.len() > 0 && m.len() > 0 && is_proper_prefix(m, buf);
    if exact || prefix {
    } else {
        match pending {
            Some((plen, pev)) => {
                let rem = if plen < buf.len() {
                    buf.skip(plen as int)
                } else {
                    Seq::empty()
                };
                if rem.len() > 0 {
                    waiting_keys_can_still_match(rem, None, m);
                }
            },
            None => {
                if buf.len() > 1 {
                    waiting_keys_can_still_match(buf.drop_first(), None, m);
                }
            },
        }
    }
}

/// The keys each resolved item took, in order: those of a fired sequence,
/// or the one handed to the fallback.
pub open spec fn resolved_keys(outs: Seq<Resolved>) -> Seq<KeyCombination>
    decreases outs.len(),
{
    if outs.len() == 0 {
        Seq::empty()
    } else {
        resolved_keys(outs.drop_last()) + item_keys(outs.last())
    }
}

/// The keys one resolved item took.
pub open spec fn item_keys(o: Resolved) -> Seq<KeyCombination> {
    match o {
        Resolved::Bound(keys, _) => keys,
        Resolved::Fallback(k) => seq![k],
    }
}

proof fn lemma_resolved_keys_one(o: Resolved)
    ensures
        resolved_keys(seq![o]) == item_keys(o),
{
    assert(seq![o].drop_last() =~= Seq::<Resolved>::empty());
    assert(resolved_keys(Seq::<Resolved>::empty()) == Seq::<KeyCombination>::empty());
    assert(Seq::<KeyCombination>::empty() + item_keys(o) =~= item_keys(o));
}

proof fn lemma_resolved_keys_append(a: Seq<Resolved>, b: Seq<Resolved>)
    ensures
        resolved_keys(a + b) == resolved_keys(a) + resolved_keys(b),
    decreases b.len(),
{
    if b.len() == 0 {
        assert(a + b =~= a);
        assert(resolved_keys(a) + Seq::<KeyCombination>::empty() =~= resolved_keys(a));
    } else {
        assert((a + b).drop_last() =~= a + b.drop_last());
        assert((a + b).last() == b.last());
        lemma_resolved_keys_append(a, b.drop_last());
        let tail = item_keys(b.last());
        assert(resolved_keys(a) + resolved_keys(b.drop_last()) + tail =~= resolved_keys(a) + (
        resolved_keys(b.drop_last()) + tail));
    }
}

/// No typed key is lost or repeated: the keys of the sequences that
/// fired and those handed to the fallback, followed by the keys still
/// waiting, are the keys typed, in order.
pub proof fn every_key_is_accounted_for(buf: Seq<KeyCombination>, pending: Option<(nat, EventView)>, m: Map<Seq<KeyCombination>, EventView>)
    ensures
        ({
            let r = resolve(buf, pending, m);
            resolved_keys(r.2) + r.0 == buf
        }),
    decreases buf.len(), (if pending is Some {
        1int
    } else {
        0int
    }),
{
    let exact = buf.len() > 0 && m.len() > 0 && m.dom().contains(buf);
    let prefix = buf.len() > 0 && m.len() > 0 && is_proper_prefix(m, buf);
    let r = resolve(buf, pending, m);
    if exact && !prefix {
        lemma_resolved_keys_one(Resolved::Bound(buf, m[buf]));
        assert(buf + Seq::<KeyCombination>::empty() =~= buf);
    } else if exact || prefix {
        assert(Seq::<KeyCombination>::empty() + buf =~= buf);
    } else {
        match pending {
            Some((plen, pev)) => {
                let fired = if plen < buf.len() {
                    buf.take(plen as int)
                } else {
                    buf
                };
                let rem = if plen < buf.len() {
                    buf.skip(plen as int)
                } else {
                    Seq::empty()
                };
                let one = seq![Resolved::Bound(fired, pev)];
                lemma_resolved_keys_one(Resolved::Bound(fired, pev));
                if rem.len() == 0 {
                    assert(fired + rem =~= buf);
                } else {
                    every_key_is_accounted_for(rem, None, m);
                    let r2 = resolve(rem, None, m);
                    lemma_resolved_keys_append(one, r2.2);
                    assert(fired + (resolved_keys(r2.2) + r2.0) =~= buf);
                    assert(fired + resolved_keys(r2.2) + r2.0 =~= fired + (resolved_keys(r2.2) + r2.0));
                }
            },
            None => {
                if buf.len() == 0 {
                    assert(Seq::<KeyCombination>::empty() + buf =~= buf);
                } else {
                    let rest = buf.drop_first();
                    let one = seq![Resolved::Fallback(buf[0])];
                    lemma_resolved_keys_one(Resolved::Fallback(buf[0]));
                    if rest.len() == 0 {
                        assert(seq![buf[0]] + rest =~= buf);
                    } else {
                        every_key_is_accounted_for(rest, None, m);
                        let r2 = resolve(rest, None, m);
                        lemma_resolved_keys_append(one, r2.2);
                        assert(seq![buf[0]] + (resolved_keys(r2.2) + r2.0) =~= buf);
                        assert(seq![buf[0]] + resolved_keys(r2.2) + r2.0 =~= seq![buf[0]] + (
                        resolved_keys(r2.2) + r2.0));
                    }
                }
            },
        }
    }
}

} // verus!
