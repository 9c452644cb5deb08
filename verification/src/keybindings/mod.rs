//! Customizable keybindings: the bindable actions, the modes that each
//! carry their own binding table, and the table itself, with lookup,
//! override and merge semantics pinned down exactly.
//!
//! Keybindings are configured as string keys (`"ctrl-c"`, `"enter"`)
//! organised by mode; `parse` converts them to typed bindings.

pub mod action;
pub mod defaults;
pub mod parse;

pub use action::Action;
pub use defaults::default_keybindings;
pub use parse::{format_key, format_key_compact, parse_key, KeyBinding, KeyCode, KeyMods};

use vstd::prelude::*;

use crate::keybindings::parse::{spec_parse_key, spec_parse_key_err};

verus! {

/// The application modes, each with its own keybinding set.
#[derive(Clone, Copy, Debug, PartialEq, Eq, Structural)]
pub enum KeybindingMode {
    /// Normal navigation mode.
    Normal,
    /// The help popup is shown.
    Help,
    /// The theme picker is shown.
    ThemePicker,
    /// Interactive element navigation.
    Interactive,
    /// Table cell navigation within interactive mode.
    InteractiveTable,
    /// Link following mode.
    LinkFollow,
    /// Link search within link follow mode.
    LinkSearch,
    /// Outline search mode.
    Search,
    /// Cell editing mode.
    CellEdit,
    /// A confirmation dialog.
    ConfirmDialog,
}

/// The display name of a mode.
pub open spec fn spec_display_name(m: KeybindingMode) -> Seq<char> {
    match m {
        KeybindingMode::Normal => "Normal"@,
        KeybindingMode::Help => "Help"@,
        KeybindingMode::ThemePicker => "Theme Picker"@,
        KeybindingMode::Interactive => "Interactive"@,
        KeybindingMode::InteractiveTable => "Table Navigation"@,
        KeybindingMode::LinkFollow => "Link Follow"@,
        KeybindingMode::LinkSearch => "Link Search"@,
        KeybindingMode::Search => "Search"@,
        KeybindingMode::CellEdit => "Cell Edit"@,
        KeybindingMode::ConfirmDialog => "Confirm"@,
    }
}

impl KeybindingMode {
    /// The display name of this mode.
    pub fn display_name(&self) -> (r: &'static str)
        ensures
            r@ == spec_display_name(*self),
    {
        match self {
            KeybindingMode::Normal => "Normal",
            KeybindingMode::Help => "Help",
            KeybindingMode::ThemePicker => "Theme Picker",
            KeybindingMode::Interactive => "Interactive",
            KeybindingMode::InteractiveTable => "Table Navigation",
            KeybindingMode::LinkFollow => "Link Follow",
            KeybindingMode::LinkSearch => "Link Search",
            KeybindingMode::Search => "Search",
            KeybindingMode::CellEdit => "Cell Edit",
            KeybindingMode::ConfirmDialog => "Confirm",
        }
    }
}

/// The action bound to `(mode, binding)` in an entry list: the entry
/// registered last wins, so later `set` calls override earlier ones.
pub open spec fn kb_lookup(
    s: Seq<(KeybindingMode, KeyBinding, Action)>,
    mode: KeybindingMode,
    binding: KeyBinding,
) -> Option<Action>
    decreases s.len(),
{
    if s.len() == 0 {
        None
    } else if s.last().0 == mode && s.last().1 == binding {
        Some(s.last().2)
    } else {
        kb_lookup(s.drop_last(), mode, binding)
    }
}

/// The `(binding, action)` pairs of one mode, in entry order.
pub open spec fn mode_entries(
    s: Seq<(KeybindingMode, KeyBinding, Action)>,
    mode: KeybindingMode,
) -> Seq<(KeyBinding, Action)>
    decreases s.len(),
{
    if s.len() == 0 {
        Seq::empty()
    } else if s[0].0 == mode {
        seq![(s[0].1, s[0].2)] + mode_entries(s.drop_first(), mode)
    } else {
        mode_entries(s.drop_first(), mode)
    }
}

/// Does no entry after `idx` bind `b` in `mode`? (The entry at `idx`
/// then wins the lookup for that key.)
#[verifier::opaque]
pub open spec fn no_later(
    s: Seq<(KeybindingMode, KeyBinding, Action)>,
    idx: int,
    mode: KeybindingMode,
    b: KeyBinding,
) -> bool {
    forall|j: int| idx < j < s.len() ==> !(#[trigger] s[j].0 == mode && s[j].1 == b)
}

/// An entry after which no other entry binds the same key in the same
/// mode is what lookup returns.
pub proof fn lemma_lookup_winner(
    s: Seq<(KeybindingMode, KeyBinding, Action)>,
    i: int,
)
    requires
        0 <= i < s.len(),
        no_later(s, i, s[i].0, s[i].1),
    ensures
        kb_lookup(s, s[i].0, s[i].1) == Some(s[i].2),
    decreases s.len(),
{
    reveal(no_later);
    if i == s.len() - 1 {
    } else {
        assert(no_later(s.drop_last(), i, s[i].0, s[i].1)) by {
            assert(forall|j: int|
                i < j < s.len() - 1 ==> s.drop_last()[j] == #[trigger] s[j]);
        }
        lemma_lookup_winner(s.drop_last(), i);
    }
}

/// A successful lookup comes from some entry after which no other
/// entry binds the same key in the same mode.
pub proof fn lemma_lookup_some(
    s: Seq<(KeybindingMode, KeyBinding, Action)>,
    mode: KeybindingMode,
    binding: KeyBinding,
    a: Action,
)
    requires
        kb_lookup(s, mode, binding) == Some(a),
    ensures
        exists|i: int|
            0 <= i < s.len() && #[trigger] s[i] == (mode, binding, a) && no_later(
                s,
                i,
                mode,
                binding,
            ),
    decreases s.len(),
{
    reveal(no_later);
    if s.len() > 0 {
        if s.last().0 == mode && s.last().1 == binding {
            assert(s[s.len() - 1] == (mode, binding, a));
            assert(no_later(s, s.len() - 1, mode, binding));
        } else {
            lemma_lookup_some(s.drop_last(), mode, binding, a);
            let i = choose|i: int|
                0 <= i < s.drop_last().len() && #[trigger] s.drop_last()[i] == (
                    mode,
                    binding,
                    a,
                ) && no_later(s.drop_last(), i, mode, binding);
            assert(s[i] == (mode, binding, a));
            assert(no_later(s, i, mode, binding)) by {
                assert forall|j: int|
                    i < j < s.len() implies !(#[trigger] s[j].0 == mode && s[j].1 == binding) by {
                    if j < s.len() - 1 {
                        assert(s[j] == s.drop_last()[j]);
                    }
                }
            }
        }
    }
}

/// The complete keybinding table: which key performs which action in
/// each mode. Later registrations win, so user configuration can
/// override the defaults entry by entry.
#[derive(Debug)]
pub struct Keybindings {
    entries: Vec<(KeybindingMode, KeyBinding, Action)>,
}

impl View for Keybindings {
    type V = Seq<(KeybindingMode, KeyBinding, Action)>;

    closed spec fn view(&self) -> Seq<(KeybindingMode, KeyBinding, Action)> {
        self.entries@
    }
}

impl Default for Keybindings {
    /// The default keybinding table.
    fn default() -> (r: Keybindings)
        ensures
            defaults::default_bindings_present(r@),
    {
        defaults::default_keybindings()
    }
}

impl Keybindings {
    /// An empty table: nothing bound in any mode.
    pub fn new() -> (r: Keybindings)
        ensures
            r@.len() == 0,
            forall|m: KeybindingMode, b: KeyBinding| kb_lookup(r@, m, b) == None::<Action>,
    {
        Keybindings { entries: Vec::new() }
    }

    /// Bind `binding` to `action` in `mode`, overriding any earlier
    /// binding of the same key in the same mode and touching nothing
    /// else.
    pub fn set(&mut self, mode: KeybindingMode, binding: KeyBinding, action: Action)
        ensures
            final(self)@ == old(self)@.push((mode, binding, action)),
            forall|m: KeybindingMode, b: KeyBinding|
                #[trigger] kb_lookup(final(self)@, m, b) == if m == mode && b == binding {
                    Some(action)
                } else {
                    kb_lookup(old(self)@, m, b)
                },
    {
        self.entries.push((mode, binding, action));
        proof {
            assert forall|m: KeybindingMode, b: KeyBinding|
                #[trigger] kb_lookup(self@, m, b) == if m == mode && b == binding {
                    Some(action)
                } else {
                    kb_lookup(old(self)@, m, b)
                } by {
                assert(self@.last() == (mode, binding, action));
                assert(self@.drop_last() =~= old(self)@);
            }
        }
    }

    /// The action bound to a key in a mode, if any.
    #[verifier::loop_isolation(false)]
    pub fn get_action(&self, mode: KeybindingMode, code: KeyCode, modifiers: KeyMods) -> (r:
        Option<Action>)
        ensures
            r == kb_lookup(self@, mode, KeyBinding { code, modifiers }),
    {
        let binding = KeyBinding { code, modifiers };
        let mut i: usize = self.entries.len();
        proof {
            assert(self@.take(i as int) =~= self@);
        }
        while i > 0
            invariant
                i <= self@.len(),
                kb_lookup(self@, mode, binding) == kb_lookup(self@.take(i as int), mode, binding),
            decreases i,
        {
            i = i - 1;
            let e = &self.entries[i];
            proof {
                assert(self@.take(i + 1 as int).last() == self@[i as int]);
                assert(self@.take(i + 1 as int).drop_last() =~= self@.take(i as int));
            }
            if e.0 == mode && e.1 == binding {
                proof {
                    assert(kb_lookup(self@.take(i + 1 as int), mode, binding) == Some(
                        self@[i as int].2,
                    ));
                }
                return Some(e.2);
            }
        }
        proof {
            assert(self@.take(0) =~= Seq::<(KeybindingMode, KeyBinding, Action)>::empty());
        }
        None
    }

    /// All `(binding, action)` entries of a mode, in registration
    /// order. (Overridden entries appear under their final action
    /// only, since `set` wins by coming later; entries are reported as
    /// stored.)
    pub fn get_mode_bindings(&self, mode: KeybindingMode) -> (r: Vec<(KeyBinding, Action)>)
        ensures
            r@ == mode_entries(self@, mode),
    {
        let mut r: Vec<(KeyBinding, Action)> = Vec::new();
        let mut i: usize = 0;
        proof {
            assert(self@.take(0) =~= Seq::<(KeybindingMode, KeyBinding, Action)>::empty());
            assert(r@ =~= mode_entries(self@.take(0), mode));
        }
        while i < self.entries.len()
            invariant
                i <= self@.len(),
                r@ == mode_entries(self@.take(i as int), mode),
            decreases self@.len() - i,
        {
            let e = &self.entries[i];
            proof {
                lemma_mode_entries_push(self@.take(i as int), mode, self@[i as int]);
                assert(self@.take(i as int).push(self@[i as int]) =~= self@.take(i + 1 as int));
            }
            if e.0 == mode {
                r.push((e.1, e.2));
            }
            i += 1;
        }
        proof {
            assert(self@.take(self@.len() as int) =~= self@);
        }
        r
    }

    /// Remove a binding from a mode, returning the action it had
    /// (the last one registered for it), if it was bound at all.
    /// Afterwards nothing is bound to that key in that mode, and every
    /// other lookup is unchanged.
    pub fn remove(&mut self, mode: KeybindingMode, binding: &KeyBinding) -> (r: Option<Action>)
        ensures
            r == kb_lookup(old(self)@, mode, *binding),
            forall|m: KeybindingMode, b: KeyBinding|
                #[trigger] kb_lookup(final(self)@, m, b) == if m == mode && b == *binding {
                    None::<Action>
                } else {
                    kb_lookup(old(self)@, m, b)
                },
    {
        let prior = self.get_action(mode, binding.code, binding.modifiers);
        let ghost olds = self@;
        let mut kept: Vec<(KeybindingMode, KeyBinding, Action)> = Vec::new();
        let mut i: usize = 0;
        proof {
            assert(olds.take(0) =~= Seq::<(KeybindingMode, KeyBinding, Action)>::empty());
            lemma_remove_filter(olds.take(0), mode, *binding);
            assert(kept@ =~= remove_entries(olds.take(0), mode, *binding));
        }
        while i < self.entries.len()
            invariant
                i <= olds.len(),
                self@ == olds,
                kept@ == remove_entries(olds.take(i as int), mode, *binding),
            decreases olds.len() - i,
        {
            let e = &self.entries[i];
            proof {
                lemma_remove_push(olds.take(i as int), mode, *binding, olds[i as int]);
                assert(olds.take(i as int).push(olds[i as int]) =~= olds.take(i + 1 as int));
            }
            if !(e.0 == mode && e.1 == *binding) {
                kept.push(*e);
            }
            i += 1;
        }
        proof {
            assert(olds.take(olds.len() as int) =~= olds);
        }
        self.entries = kept;
        proof {
            lemma_remove_lookup(olds, mode, *binding);
        }
        prior
    }

    /// Every key bound to `action` in `mode`: exactly the bindings
    /// whose lookup gives that action, each reported once.
    #[verifier::loop_isolation(false)]
    #[verifier::rlimit(100)]
    pub fn keys_for_action(&self, mode: KeybindingMode, action: Action) -> (r: Vec<KeyBinding>)
        ensures
            forall|m: int|
                0 <= m < r@.len() ==> kb_lookup(self@, mode, #[trigger] r@[m]) == Some(action),
            forall|b: KeyBinding|
                kb_lookup(self@, mode, b) == Some(action) ==> r@.contains(b),
            forall|m1: int, m2: int| 0 <= m1 < m2 < r@.len() ==> r@[m1] != r@[m2],
    {
        let ghost s = self@;
        let n = self.entries.len();
        let mut r: Vec<KeyBinding> = Vec::new();
        let ghost mut owners: Seq<int> = Seq::empty();
        let mut i: usize = 0;
        while i < n
            invariant
                i <= n,
                n == s.len(),
                s == self@,
                owners.len() == r@.len(),
                forall|m: int|
                    #![trigger owners[m]]
                    0 <= m < r@.len() ==> 0 <= owners[m] < i && s[owners[m]].0 == mode
                        && s[owners[m]].2 == action && s[owners[m]].1 == r@[m] && no_later(
                        s,
                        owners[m],
                        mode,
                        r@[m],
                    ),
                forall|m1: int, m2: int|
                    #![trigger owners[m1], owners[m2]]
                    0 <= m1 < m2 < r@.len() ==> owners[m1] < owners[m2],
                forall|idx: int|
                    #![trigger s[idx]]
                    0 <= idx < i && s[idx].0 == mode && s[idx].2 == action && no_later(
                        s,
                        idx,
                        mode,
                        s[idx].1,
                    ) ==> r@.contains(s[idx].1),
            decreases n - i,
        {
            let e = &self.entries[i];
            if e.0 == mode && e.2 == action {
                // Is this the last entry for this key in this mode?
                let mut is_winner: bool = true;
                let mut j: usize = i + 1;
                while j < n
                    invariant
                        i < j <= n,
                        is_winner == (forall|j2: int|
                            i < j2 < j ==> !(#[trigger] s[j2].0 == mode && s[j2].1
                                == s[i as int].1)),
                    decreases n - j,
                {
                    let e2 = &self.entries[j];
                    if e2.0 == mode && e2.1 == e.1 {
                        is_winner = false;
                    }
                    j += 1;
                }
                proof {
                    reveal(no_later);
                    assert(is_winner == no_later(s, i as int, mode, s[i as int].1));
                }
                if is_winner {
                    let ghost old_r = r@;
                    r.push(e.1);
                    proof {
                        owners = owners.push(i as int);
                        assert(r@[r@.len() - 1] == s[i as int].1);
                        assert forall|idx: int|
                            0 <= idx < i + 1 && (#[trigger] s[idx]).0 == mode && s[idx].2
                                == action && no_later(s, idx, mode, s[idx].1) implies r@.contains(
                            s[idx].1,
                        ) by {
                            if idx < i {
                                assert(old_r.contains(s[idx].1));
                                let m0 = choose|m0: int|
                                    0 <= m0 < old_r.len() && old_r[m0] == s[idx].1;
                                assert(r@[m0] == s[idx].1);
                            } else {
                                assert(r@[r@.len() - 1] == s[idx].1);
                            }
                        }
                    }
                } else {
                    proof {
                        assert forall|idx: int|
                            0 <= idx < i + 1 && (#[trigger] s[idx]).0 == mode && s[idx].2
                                == action && no_later(s, idx, mode, s[idx].1) implies r@.contains(
                            s[idx].1,
                        ) by {
                            if idx == i {
                                assert(!no_later(s, i as int, mode, s[i as int].1));
                            }
                        }
                    }
                }
            } else {
                proof {
                    reveal(no_later);
                }
            }
            i += 1;
        }
        proof {
            assert forall|m: int|
                0 <= m < r@.len() implies kb_lookup(s, mode, #[trigger] r@[m]) == Some(action) by {
                lemma_lookup_winner(s, owners[m]);
            }
            assert forall|b: KeyBinding|
                kb_lookup(s, mode, b) == Some(action) implies r@.contains(b) by {
                lemma_lookup_some(s, mode, b, action);
                let idx = choose|idx: int|
                    0 <= idx < s.len() && #[trigger] s[idx] == (mode, b, action) && no_later(
                        s,
                        idx,
                        mode,
                        b,
                    );
                assert(s[idx].1 == b);
                assert(s[idx].0 == mode && s[idx].2 == action);
                assert(no_later(s, idx, mode, s[idx].1));
                assert(r@.contains(s[idx].1));
            }
            assert forall|m1: int, m2: int| 0 <= m1 < m2 < r@.len() implies r@[m1] != r@[m2] by {
                reveal(no_later);
                if r@[m1] == r@[m2] {
                    assert(owners[m1] < owners[m2] < s.len());
                    assert(s[owners[m2]].0 == mode && s[owners[m2]].1 == r@[m1]);
                }
            }
        }
        r
    }

    /// Help entries for a mode: each action bound in the mode exactly
    /// once, paired with the compact forms of exactly the keys bound
    /// to it, in the order the actions first appear among the mode's
    /// entries.
    #[verifier::loop_isolation(false)]
    #[verifier::rlimit(100)]
    #[verifier::spinoff_prover]
    pub fn help_entries(&self, mode: KeybindingMode) -> (r: Vec<(Action, Vec<String>)>)
        ensures
            forall|i1: int, i2: int| 0 <= i1 < i2 < r@.len() ==> r@[i1].0 != r@[i2].0,
            forall|i: int|
                0 <= i < r@.len() ==> action_bound(self@, mode, (#[trigger] r@[i]).0)
                    && help_keys_ok(self@, mode, r@[i].0, r@[i].1@),
            forall|a: Action|
                #[trigger] action_bound(self@, mode, a) ==> action_in(r@, a),
    {
        let ghost s = self@;
        let n = self.entries.len();
        let mut r: Vec<(Action, Vec<String>)> = Vec::new();
        let mut i: usize = 0;
        while i < n
            invariant
                i <= n,
                n == s.len(),
                s == self@,
                forall|i1: int, i2: int| 0 <= i1 < i2 < r@.len() ==> r@[i1].0 != r@[i2].0,
                forall|m: int|
                    0 <= m < r@.len() ==> action_bound(s, mode, (#[trigger] r@[m]).0)
                        && help_keys_ok(s, mode, r@[m].0, r@[m].1@),
                forall|idx: int|
                    0 <= idx < i && (#[trigger] s[idx]).0 == mode && action_bound(
                        s,
                        mode,
                        s[idx].2,
                    ) ==> action_in(r@, s[idx].2),
            decreases n - i,
        {
            let e = &self.entries[i];
            if e.0 == mode && !action_listed(&r, e.2) {
                let keys = self.keys_for_action(mode, e.2);
                if keys.len() > 0 {
                    let fs = compact_all(&keys);
                    proof {
                        assert(action_bound(s, mode, e.2)) by {
                            reveal(action_bound);
                            assert(kb_lookup(s, mode, keys@[0]) == Some(e.2));
                        }
                        assert(help_keys_ok(s, mode, e.2, fs@)) by {
                            reveal(help_keys_ok);
                            assert forall|b: KeyBinding|
                                #[trigger] kb_lookup(s, mode, b) == Some(e.2) implies exists|
                                k: int,
                            |
                                0 <= k < fs@.len() && fs@[k]@
                                    == crate::keybindings::parse::spec_format_compact(b) by {
                                assert(keys@.contains(b));
                                let k0 = choose|k0: int|
                                    0 <= k0 < keys@.len() && keys@[k0] == b;
                                assert(fs@[k0]@
                                    == crate::keybindings::parse::spec_format_compact(b));
                            }
                        }
                    }
                    let ghost old_r = r@;
                    r.push((e.2, fs));
                    proof {
                        assert forall|i1: int, i2: int|
                            0 <= i1 < i2 < r@.len() implies r@[i1].0 != r@[i2].0 by {
                            if i2 == r@.len() - 1 && r@[i1].0 == e.2 {
                                assert(action_in(old_r, e.2)) by {
                                    reveal(action_in);
                                    assert(old_r[i1].0 == e.2);
                                }
                            }
                        }
                        assert forall|idx: int|
                            0 <= idx < i + 1 && (#[trigger] s[idx]).0 == mode && action_bound(
                                s,
                                mode,
                                s[idx].2,
                            ) implies action_in(r@, s[idx].2) by {
                            reveal(action_in);
                            if idx < i && s[idx].2 != e.2 {
                                assert(action_in(old_r, s[idx].2));
                                let m0 = choose|m0: int|
                                    0 <= m0 < old_r.len() && (#[trigger] old_r[m0]).0
                                        == s[idx].2;
                                assert(r@[m0].0 == s[idx].2);
                            } else {
                                assert(r@[r@.len() - 1].0 == s[idx].2);
                            }
                        }
                    }
                } else {
                    proof {
                        assert forall|idx: int|
                            0 <= idx < i + 1 && (#[trigger] s[idx]).0 == mode && action_bound(
                                s,
                                mode,
                                s[idx].2,
                            ) implies action_in(r@, s[idx].2) by {
                            if idx == i {
                                reveal(action_bound);
                                let b0 = choose|b0: KeyBinding|
                                    #[trigger] kb_lookup(s, mode, b0) == Some(s[idx].2);
                                assert(keys@.contains(b0));
                            }
                        }
                    }
                }
            } else {
                proof {
                    assert forall|idx: int|
                        0 <= idx < i + 1 && (#[trigger] s[idx]).0 == mode && action_bound(
                            s,
                            mode,
                            s[idx].2,
                        ) implies action_in(r@, s[idx].2) by {}
                }
            }
            i += 1;
        }
        proof {
            assert forall|a: Action| #[trigger] action_bound(s, mode, a) implies action_in(
                r@,
                a,
            ) by {
                reveal(action_bound);
                let b = choose|b: KeyBinding| #[trigger] kb_lookup(s, mode, b) == Some(a);
                lemma_lookup_some(s, mode, b, a);
                let idx = choose|idx: int|
                    0 <= idx < s.len() && #[trigger] s[idx] == (mode, b, a) && no_later(
                        s,
                        idx,
                        mode,
                        b,
                    );
                assert(s[idx].0 == mode && s[idx].2 == a);
                assert(action_bound(s, mode, s[idx].2));
            }
        }
        r
    }

    /// Merge another table into this one: where both bind the same key
    /// in the same mode, the other's binding wins; everything else is
    /// kept.
    pub fn merge(&mut self, other: &Keybindings)
        ensures
            forall|m: KeybindingMode, b: KeyBinding|
                #[trigger] kb_lookup(final(self)@, m, b) == match kb_lookup(other@, m, b) {
                    Some(a) => Some(a),
                    None => kb_lookup(old(self)@, m, b),
                },
    {
        let ghost initial = self@;
        let mut i: usize = 0;
        proof {
            assert(other@.take(0) =~= Seq::<(KeybindingMode, KeyBinding, Action)>::empty());
        }
        while i < other.entries.len()
            invariant
                i <= other@.len(),
                forall|m: KeybindingMode, b: KeyBinding|
                    #[trigger] kb_lookup(self@, m, b) == match kb_lookup(
                        other@.take(i as int),
                        m,
                        b,
                    ) {
                        Some(a) => Some(a),
                        None => kb_lookup(initial, m, b),
                    },
            decreases other@.len() - i,
        {
            let e = &other.entries[i];
            proof {
                assert(other@.take(i + 1 as int).last() == other@[i as int]);
                assert(other@.take(i + 1 as int).drop_last() =~= other@.take(i as int));
            }
            self.set(e.0, e.1, e.2);
            i += 1;
        }
        proof {
            assert(other@.take(other@.len() as int) =~= other@);
        }
    }
}


/// Is some key bound to `a` in `mode`?
#[verifier::opaque]
pub open spec fn action_bound(
    s: Seq<(KeybindingMode, KeyBinding, Action)>,
    mode: KeybindingMode,
    a: Action,
) -> bool {
    exists|b: KeyBinding| #[trigger] kb_lookup(s, mode, b) == Some(a)
}

/// Does `ks` hold the compact forms of exactly the keys bound to `a`
/// in `mode`?
#[verifier::opaque]
pub open spec fn help_keys_ok(
    s: Seq<(KeybindingMode, KeyBinding, Action)>,
    mode: KeybindingMode,
    a: Action,
    ks: Seq<String>,
) -> bool {
    &&& forall|n: int|
        0 <= n < ks.len() ==> exists|b: KeyBinding|
            kb_lookup(s, mode, b) == Some(a) && (#[trigger] ks[n])@
                == crate::keybindings::parse::spec_format_compact(b)
    &&& forall|b: KeyBinding|
        #[trigger] kb_lookup(s, mode, b) == Some(a) ==> exists|n: int|
            0 <= n < ks.len() && ks[n]@ == crate::keybindings::parse::spec_format_compact(b)
}

/// Is `a` listed among the entries?
#[verifier::opaque]
pub open spec fn action_in(rv: Seq<(Action, Vec<String>)>, a: Action) -> bool {
    exists|i: int| 0 <= i < rv.len() && (#[trigger] rv[i]).0 == a
}

/// Is `a` already listed among the entries?
fn action_listed(r: &Vec<(Action, Vec<String>)>, a: Action) -> (res: bool)
    ensures
        res == action_in(r@, a),
{
    let mut i: usize = 0;
    while i < r.len()
        invariant
            i <= r@.len(),
            forall|k: int| 0 <= k < i ==> (#[trigger] r@[k]).0 != a,
        decreases r@.len() - i,
    {
        if r[i].0 == a {
            proof {
                reveal(action_in);
            }
            return true;
        }
        i += 1;
    }
    proof {
        reveal(action_in);
    }
    false
}

/// The compact display form of each key, in order.
fn compact_all(keys: &Vec<KeyBinding>) -> (fs: Vec<String>)
    ensures
        fs@.len() == keys@.len(),
        forall|n: int|
            0 <= n < keys@.len() ==> (#[trigger] fs@[n])@
                == crate::keybindings::parse::spec_format_compact(keys@[n]),
{
    let mut fs: Vec<String> = Vec::new();
    let mut i: usize = 0;
    while i < keys.len()
        invariant
            i <= keys@.len(),
            fs@.len() == i,
            forall|n: int|
                0 <= n < i ==> (#[trigger] fs@[n])@
                    == crate::keybindings::parse::spec_format_compact(keys@[n]),
        decreases keys@.len() - i,
    {
        let f = format_key_compact(&keys[i]);
        fs.push(f);
        i += 1;
    }
    fs
}

/// The entries left after removing every binding of `binding` in
/// `mode`, in order.
pub open spec fn remove_entries(
    s: Seq<(KeybindingMode, KeyBinding, Action)>,
    mode: KeybindingMode,
    binding: KeyBinding,
) -> Seq<(KeybindingMode, KeyBinding, Action)>
    decreases s.len(),
{
    if s.len() == 0 {
        Seq::empty()
    } else if s[0].0 == mode && s[0].1 == binding {
        remove_entries(s.drop_first(), mode, binding)
    } else {
        seq![s[0]] + remove_entries(s.drop_first(), mode, binding)
    }
}

/// Removal leaves the removed key unbound and every other lookup
/// unchanged.
pub proof fn lemma_remove_lookup(
    s: Seq<(KeybindingMode, KeyBinding, Action)>,
    mode: KeybindingMode,
    binding: KeyBinding,
)
    ensures
        forall|m: KeybindingMode, b: KeyBinding|
            #[trigger] kb_lookup(remove_entries(s, mode, binding), m, b) == if m == mode && b
                == binding {
                None::<Action>
            } else {
                kb_lookup(s, m, b)
            },
    decreases s.len(),
{
    if s.len() > 0 {
        lemma_remove_lookup(s.drop_last(), mode, binding);
        lemma_remove_snoc(s.drop_last(), mode, binding, s.last());
        assert(s.drop_last().push(s.last()) =~= s);
        assert forall|m: KeybindingMode, b: KeyBinding|
            #[trigger] kb_lookup(remove_entries(s, mode, binding), m, b) == (if m == mode && b
                == binding {
                None::<Action>
            } else {
                kb_lookup(s, m, b)
            }) by {
            let removed = remove_entries(s, mode, binding);
            let removed_prefix = remove_entries(s.drop_last(), mode, binding);
            if s.last().0 == mode && s.last().1 == binding {
                assert(removed == removed_prefix);
            } else {
                assert(removed == removed_prefix.push(s.last()));
                assert(removed.drop_last() =~= removed_prefix);
            }
        }
    }
}

/// Removing from one more entry keeps or drops that entry.
pub proof fn lemma_remove_snoc(
    s: Seq<(KeybindingMode, KeyBinding, Action)>,
    mode: KeybindingMode,
    binding: KeyBinding,
    e: (KeybindingMode, KeyBinding, Action),
)
    ensures
        remove_entries(s.push(e), mode, binding) == if e.0 == mode && e.1 == binding {
            remove_entries(s, mode, binding)
        } else {
            remove_entries(s, mode, binding).push(e)
        },
    decreases s.len(),
{
    let p = s.push(e);
    if s.len() == 0 {
        assert(p[0] == e);
        assert(p.drop_first() =~= Seq::<(KeybindingMode, KeyBinding, Action)>::empty());
        if !(e.0 == mode && e.1 == binding) {
            assert(seq![e] + remove_entries(p.drop_first(), mode, binding) =~= remove_entries(
                s,
                mode,
                binding,
            ).push(e));
        }
    } else {
        lemma_remove_snoc(s.drop_first(), mode, binding, e);
        assert(p[0] == s[0]);
        assert(p.drop_first() =~= s.drop_first().push(e));
        if !(e.0 == mode && e.1 == binding) {
            if !(s[0].0 == mode && s[0].1 == binding) {
                assert(seq![s[0]] + remove_entries(s.drop_first(), mode, binding).push(e)
                    =~= (seq![s[0]] + remove_entries(s.drop_first(), mode, binding)).push(e));
            }
        }
    }
}

/// `lemma_remove_snoc` stated for the take-prefix loop step.
pub proof fn lemma_remove_push(
    s: Seq<(KeybindingMode, KeyBinding, Action)>,
    mode: KeybindingMode,
    binding: KeyBinding,
    e: (KeybindingMode, KeyBinding, Action),
)
    ensures
        remove_entries(s.push(e), mode, binding) == if e.0 == mode && e.1 == binding {
            remove_entries(s, mode, binding)
        } else {
            remove_entries(s, mode, binding).push(e)
        },
{
    lemma_remove_snoc(s, mode, binding, e);
}

/// The base case of the removal filter.
pub proof fn lemma_remove_filter(
    s: Seq<(KeybindingMode, KeyBinding, Action)>,
    mode: KeybindingMode,
    binding: KeyBinding,
)
    requires
        s.len() == 0,
    ensures
        remove_entries(s, mode, binding) == Seq::<(KeybindingMode, KeyBinding, Action)>::empty(),
{
}

/// One more entry extends a mode's entry list when it belongs to the
/// mode.
pub proof fn lemma_mode_entries_push(
    s: Seq<(KeybindingMode, KeyBinding, Action)>,
    mode: KeybindingMode,
    e: (KeybindingMode, KeyBinding, Action),
)
    ensures
        mode_entries(s.push(e), mode) == if e.0 == mode {
            mode_entries(s, mode).push((e.1, e.2))
        } else {
            mode_entries(s, mode)
        },
    decreases s.len(),
{
    let p = s.push(e);
    if s.len() == 0 {
        assert(p[0] == e);
        assert(p.drop_first() =~= Seq::<(KeybindingMode, KeyBinding, Action)>::empty());
        assert(mode_entries(s, mode) =~= Seq::<(KeyBinding, Action)>::empty());
        assert(mode_entries(p.drop_first(), mode) =~= Seq::<(KeyBinding, Action)>::empty());
        if e.0 == mode {
            assert(mode_entries(p, mode) == seq![(e.1, e.2)] + mode_entries(
                p.drop_first(),
                mode,
            ));
            assert(seq![(e.1, e.2)] + mode_entries(p.drop_first(), mode) =~= mode_entries(
                s,
                mode,
            ).push((e.1, e.2)));
        } else {
            assert(mode_entries(p, mode) == mode_entries(p.drop_first(), mode));
        }
    } else {
        lemma_mode_entries_push(s.drop_first(), mode, e);
        assert(p[0] == s[0]);
        assert(p.drop_first() =~= s.drop_first().push(e));
        if s[0].0 == mode {
            assert(mode_entries(p, mode) == seq![(s[0].1, s[0].2)] + mode_entries(
                p.drop_first(),
                mode,
            ));
            assert(mode_entries(s, mode) == seq![(s[0].1, s[0].2)] + mode_entries(
                s.drop_first(),
                mode,
            ));
            if e.0 == mode {
                assert(seq![(s[0].1, s[0].2)] + mode_entries(s.drop_first(), mode).push((e.1, e.2))
                    =~= (seq![(s[0].1, s[0].2)] + mode_entries(s.drop_first(), mode)).push(
                    (e.1, e.2),
                ));
            }
        } else {
            assert(mode_entries(p, mode) == mode_entries(p.drop_first(), mode));
            assert(mode_entries(s, mode) == mode_entries(s.drop_first(), mode));
        }
    }
}

/// The configuration form of keybindings: string keys organised by
/// mode, as read from the configuration file.
#[derive(Debug)]
pub struct KeybindingsConfig(pub Vec<(KeybindingMode, Vec<(String, Action)>)>);

impl KeybindingsConfig {
    /// Is the configuration empty?
    pub fn is_empty(&self) -> (r: bool)
        ensures
            r == (self.0@.len() == 0),
    {
        self.0.len() == 0
    }
}

/// The action the entries of one configuration group give `binding`,
/// the entry registered last winning; an entry counts when its key
/// string parses to `binding`.
pub open spec fn config_entries_lookup(es: Seq<(String, Action)>, b: KeyBinding) -> Option<Action>
    decreases es.len(),
{
    if es.len() == 0 {
        None
    } else if spec_parse_key(es.last().0@) == Some(b) {
        Some(es.last().1)
    } else {
        config_entries_lookup(es.drop_last(), b)
    }
}

/// The action a whole configuration gives `binding` in `mode`, the
/// group and entry registered last winning.
pub open spec fn config_lookup(
    groups: Seq<(KeybindingMode, Vec<(String, Action)>)>,
    m: KeybindingMode,
    b: KeyBinding,
) -> Option<Action>
    decreases groups.len(),
{
    if groups.len() == 0 {
        None
    } else if groups.last().0 == m {
        match config_entries_lookup(groups.last().1@, b) {
            Some(a) => Some(a),
            None => config_lookup(groups.drop_last(), m, b),
        }
    } else {
        config_lookup(groups.drop_last(), m, b)
    }
}

/// Does every key string of the configuration parse?
pub open spec fn config_all_parse(groups: Seq<(KeybindingMode, Vec<(String, Action)>)>) -> bool {
    forall|g: int, j: int|
        0 <= g < groups.len() && 0 <= j < groups[g].1@.len() ==> spec_parse_key(
            (#[trigger] groups[g].1@[j]).0@,
        ) is Some
}

impl Keybindings {
    /// Build a table from configuration entries. Succeeds exactly when
    /// every key string parses; the table then binds each group's
    /// parsed keys in its mode (later entries winning), and nothing
    /// else.
    pub fn from_config(config: &KeybindingsConfig) -> (r: Result<Keybindings, String>)
        ensures
            r is Ok <==> config_all_parse(config.0@),
            match r {
                Ok(kb) => forall|m: KeybindingMode, b: KeyBinding|
                    #[trigger] kb_lookup(kb@, m, b) == config_lookup(config.0@, m, b),
                Err(msg) => exists|g: int, j: int|
                    0 <= g < config.0@.len() && 0 <= j < config.0@[g].1@.len() && spec_parse_key(
                        (#[trigger] config.0@[g].1@[j]).0@,
                    ) is None && msg@ == spec_parse_key_err(config.0@[g].1@[j].0@) && (forall|
                        g2: int,
                        j2: int,
                    |
                        0 <= g2 < g && 0 <= j2 < config.0@[g2].1@.len() ==> spec_parse_key(
                            (#[trigger] config.0@[g2].1@[j2]).0@,
                        ) is Some) && (forall|j2: int|
                        0 <= j2 < j ==> spec_parse_key(
                            (#[trigger] config.0@[g].1@[j2]).0@,
                        ) is Some),
            },
    {
        let ghost groups = config.0@;
        let mut kb = Keybindings::new();
        let mut g: usize = 0;
        proof {
            assert(groups.take(0) =~= Seq::<(KeybindingMode, Vec<(String, Action)>)>::empty());
        }
        while g < config.0.len()
            invariant
                g <= groups.len(),
                groups == config.0@,
                forall|g2: int, j: int|
                    0 <= g2 < g && 0 <= j < groups[g2].1@.len() ==> spec_parse_key(
                        (#[trigger] groups[g2].1@[j]).0@,
                    ) is Some,
                forall|m2: KeybindingMode, b2: KeyBinding|
                    #[trigger] kb_lookup(kb@, m2, b2) == config_lookup(
                        groups.take(g as int),
                        m2,
                        b2,
                    ),
            decreases groups.len() - g,
        {
            let group = &config.0[g];
            let mode = group.0;
            let mut j: usize = 0;
            proof {
                assert(group.1@.take(0) =~= Seq::<(String, Action)>::empty());
            }
            while j < group.1.len()
                invariant
                    j <= group.1@.len(),
                    group.1@ == groups[g as int].1@,
                    mode == groups[g as int].0,
                    g < groups.len(),
                    groups == config.0@,
                    forall|g2: int, j2: int|
                        0 <= g2 < g && 0 <= j2 < groups[g2].1@.len() ==> spec_parse_key(
                            (#[trigger] groups[g2].1@[j2]).0@,
                        ) is Some,
                    forall|j2: int|
                        0 <= j2 < j ==> spec_parse_key(
                            (#[trigger] groups[g as int].1@[j2]).0@,
                        ) is Some,
                    forall|m2: KeybindingMode, b2: KeyBinding|
                        #[trigger] kb_lookup(kb@, m2, b2) == (if m2 == mode {
                            match config_entries_lookup(group.1@.take(j as int), b2) {
                                Some(a) => Some(a),
                                None => config_lookup(groups.take(g as int), m2, b2),
                            }
                        } else {
                            config_lookup(groups.take(g as int), m2, b2)
                        }),
                decreases group.1@.len() - j,
            {
                let entry = &group.1[j];
                let binding = match parse_key(entry.0.as_str()) {
                    Ok(b) => b,
                    Err(msg) => {
                        proof {
                            assert(spec_parse_key(groups[g as int].1@[j as int].0@)
                                is None);
                            assert(msg@ == spec_parse_key_err(
                                groups[g as int].1@[j as int].0@,
                            ));
                        }
                        return Err(msg);
                    },
                };
                proof {
                    assert(spec_parse_key(groups[g as int].1@[j as int].0@) == Some(binding));
                }
                let ghost pre = kb@;
                kb.set(mode, binding, entry.1);
                proof {
                    assert(group.1@.take(j + 1 as int).last() == group.1@[j as int]);
                    assert(group.1@.take(j + 1 as int).drop_last() =~= group.1@.take(j as int));
                    assert forall|m2: KeybindingMode, b2: KeyBinding|
                        #[trigger] kb_lookup(kb@, m2, b2) == (if m2 == mode {
                            match config_entries_lookup(group.1@.take(j + 1 as int), b2) {
                                Some(a) => Some(a),
                                None => config_lookup(groups.take(g as int), m2, b2),
                            }
                        } else {
                            config_lookup(groups.take(g as int), m2, b2)
                        }) by {
                        assert(kb_lookup(pre, m2, b2) == (if m2 == mode {
                            match config_entries_lookup(group.1@.take(j as int), b2) {
                                Some(a) => Some(a),
                                None => config_lookup(groups.take(g as int), m2, b2),
                            }
                        } else {
                            config_lookup(groups.take(g as int), m2, b2)
                        }));
                    }
                }
                j += 1;
            }
            proof {
                assert(group.1@.take(group.1@.len() as int) =~= group.1@);
                assert(groups.take(g + 1 as int).last() == groups[g as int]);
                assert(groups.take(g + 1 as int).drop_last() =~= groups.take(g as int));
                assert forall|m2: KeybindingMode, b2: KeyBinding|
                    #[trigger] kb_lookup(kb@, m2, b2) == config_lookup(
                    groups.take(g + 1 as int),
                    m2,
                    b2,
                ) by {
                    assert(groups.take(g + 1 as int).last().1@ == group.1@);
                }
            }
            g += 1;
        }
        proof {
            assert(groups.take(groups.len() as int) =~= groups);
        }
        Ok(kb)
    }
}

impl KeybindingsConfig {
    /// The table this configuration denotes: the defaults, with the
    /// configuration's parsed bindings merged over them (the
    /// configuration wins binding by binding, unmentioned defaults
    /// kept). A configuration with an unparsable key contributes
    /// nothing: the defaults stand unchanged.
    pub fn to_keybindings(&self) -> (r: Keybindings)
        ensures
            config_all_parse(self.0@) ==> forall|m: KeybindingMode, b: KeyBinding|
                #[trigger] kb_lookup(r@, m, b) == match config_lookup(self.0@, m, b) {
                    Some(a) => Some(a),
                    None => kb_lookup(defaults::default_table(), m, b),
                },
            !config_all_parse(self.0@) ==> r@ == defaults::default_table(),
            defaults::default_keys_bound(r@),
    {
        let mut kb = defaults::default_keybindings();
        proof {
            defaults::lemma_present_implies_bound(kb@);
        }
        match Keybindings::from_config(self) {
            Ok(user) => {
                let ghost before = kb@;
                kb.merge(&user);
                proof {
                    defaults::lemma_bound_after_merge(before, kb@, user@);
                }
            },
            Err(_) => {},
        }
        kb
    }
}

} // verus!
