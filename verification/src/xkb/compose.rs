//! Dead keys and the compose key.

use vstd::prelude::*;

use crate::keyboard::{KeyEvent, KeyState, Modifiers};
use crate::text::simulate::{CompositionResult, Outcome};
use crate::xkb::{EffectiveMods, KeySym, ModsIndices, ResolvedKey};

verus! {

/// A keysym which gets special printing in our compose handling
#[derive(Clone, Copy, Debug, PartialEq, Eq, Structural)]
pub enum ComposeFeedSym {
    DeadGrave,
    DeadAcute,
    DeadCircumflex,
    DeadTilde,
    DeadMacron,
    DeadBreve,
    DeadAbovedot,
    DeadDiaeresis,
    DeadAbovering,
    DeadDoubleacute,
    DeadCaron,
    DeadCedilla,
    DeadOgonek,
    DeadIota,
    DeadVoicedSound,
    DeadSemivoicedSound,
    DeadBelowdot,
    DeadHook,
    DeadHorn,
    DeadStroke,
    DeadAbovecomma,
    DeadAbovereversedcomma,
    DeadDoublegrave,
    DeadBelowring,
    DeadBelowmacron,
    DeadBelowcircumflex,
    DeadBelowtilde,
    DeadBelowbreve,
    DeadBelowdiaeresis,
    DeadInvertedbreve,
    DeadBelowcomma,
    DeadCurrency,
    DeadGreek,
    Compose,
}

impl ComposeFeedSym {
    /// What a dead key shows: its "alive" version, or where there is none, the combining mark on
    /// a dotted circle. The compose key shows a middle dot.
    pub open spec fn symbol(self) -> Seq<char> {
        match self {
            ComposeFeedSym::DeadTilde => seq!['~'],
            ComposeFeedSym::DeadAcute => seq!['´'],
            ComposeFeedSym::DeadGrave => seq!['`'],
            ComposeFeedSym::DeadCircumflex => seq!['^'],
            ComposeFeedSym::DeadAbovering => seq!['°'],
            ComposeFeedSym::DeadMacron => seq!['¯'],
            ComposeFeedSym::DeadBreve => seq!['˘'],
            ComposeFeedSym::DeadAbovedot => seq!['˙'],
            ComposeFeedSym::DeadDiaeresis => seq!['¨'],
            ComposeFeedSym::DeadDoubleacute => seq!['˝'],
            ComposeFeedSym::DeadCaron => seq!['ˇ'],
            ComposeFeedSym::DeadCedilla => seq!['¸'],
            ComposeFeedSym::DeadOgonek => seq!['˛'],
            ComposeFeedSym::DeadIota => seq!['ͺ'],
            ComposeFeedSym::DeadBelowdot => seq!['"'],
            ComposeFeedSym::DeadBelowcomma => seq![','],
            ComposeFeedSym::DeadCurrency => seq!['¤'],
            ComposeFeedSym::DeadGreek => seq!['µ'],
            ComposeFeedSym::DeadHook => seq!['"'],
            ComposeFeedSym::DeadHorn => seq!['"'],
            ComposeFeedSym::DeadStroke => seq!['/'],
            ComposeFeedSym::DeadVoicedSound => seq!['゛'],
            ComposeFeedSym::DeadSemivoicedSound => seq!['゜'],
            ComposeFeedSym::DeadAbovecomma => seq!['´'],
            ComposeFeedSym::DeadAbovereversedcomma => seq!['`'],
            ComposeFeedSym::DeadDoublegrave => seq!['◌', '\u{030f}'],
            ComposeFeedSym::DeadBelowring => seq!['˳'],
            ComposeFeedSym::DeadBelowmacron => seq!['ˍ'],
            ComposeFeedSym::DeadBelowcircumflex => seq!['‸'],
            ComposeFeedSym::DeadBelowtilde => seq!['˷'],
            ComposeFeedSym::DeadBelowbreve => seq!['◌', '\u{032e}'],
            ComposeFeedSym::DeadBelowdiaeresis => seq!['◌', '\u{0324}'],
            ComposeFeedSym::DeadInvertedbreve => seq!['◌', '\u{0311}'],
            ComposeFeedSym::Compose => seq!['·'],
        }
    }

    /// What the symbol adds to the text of a composition. The compose key is only visible while
    /// it is the last of the sequence.
    pub open spec fn shown(self, is_last: bool) -> Seq<char> {
        if self == ComposeFeedSym::Compose && !is_last {
            Seq::empty()
        } else {
            self.symbol()
        }
    }

    /// Appends what this symbol shows to `string`, and notes in `last_is_compose` if that was the
    /// compose key's placeholder.
    pub fn append_to(self, string: &mut String, is_last: bool, last_is_compose: &mut bool)
        ensures
            final(string)@ == old(string)@ + self.shown(is_last),
            *final(last_is_compose) == (*old(last_is_compose) || (self == ComposeFeedSym::Compose
                && is_last)),
    {
        let mark: Option<char> = match self {
            ComposeFeedSym::DeadDoublegrave => Some('\u{030f}'),
            ComposeFeedSym::DeadBelowbreve => Some('\u{032e}'),
            ComposeFeedSym::DeadBelowdiaeresis => Some('\u{0324}'),
            ComposeFeedSym::DeadInvertedbreve => Some('\u{0311}'),
            _ => None,
        };
        let symbol: char = match self {
            ComposeFeedSym::DeadTilde => '~',
            ComposeFeedSym::DeadAcute => '´',
            ComposeFeedSym::DeadGrave => '`',
            ComposeFeedSym::DeadCircumflex => '^',
            ComposeFeedSym::DeadAbovering => '°',
            ComposeFeedSym::DeadMacron => '¯',
            ComposeFeedSym::DeadBreve => '˘',
            ComposeFeedSym::DeadAbovedot => '˙',
            ComposeFeedSym::DeadDiaeresis => '¨',
            ComposeFeedSym::DeadDoubleacute => '˝',
            ComposeFeedSym::DeadCaron => 'ˇ',
            ComposeFeedSym::DeadCedilla => '¸',
            ComposeFeedSym::DeadOgonek => '˛',
            ComposeFeedSym::DeadIota => 'ͺ',
            ComposeFeedSym::DeadBelowdot => '"',
            ComposeFeedSym::DeadBelowcomma => ',',
            ComposeFeedSym::DeadCurrency => '¤',
            ComposeFeedSym::DeadGreek => 'µ',
            ComposeFeedSym::DeadHook => '"',
            ComposeFeedSym::DeadHorn => '"',
            ComposeFeedSym::DeadStroke => '/',
            ComposeFeedSym::Compose => {
                if is_last {
                    *last_is_compose = true;
                    '·'
                } else {
                    assert(string@ + Seq::<char>::empty() =~= string@);
                    return ;
                }
            },
            ComposeFeedSym::DeadVoicedSound => '゛',
            ComposeFeedSym::DeadSemivoicedSound => '゜',
            // These two dead keys appear to not be used in any of the default compose keymaps.
            // Since these are only display versions, acute and grave accents stand for them.
            ComposeFeedSym::DeadAbovecomma => '´',
            ComposeFeedSym::DeadAbovereversedcomma => '`',
            ComposeFeedSym::DeadDoublegrave => '◌',
            ComposeFeedSym::DeadBelowring => '˳',
            ComposeFeedSym::DeadBelowmacron => 'ˍ',
            ComposeFeedSym::DeadBelowcircumflex => '‸',
            ComposeFeedSym::DeadBelowtilde => '˷',
            ComposeFeedSym::DeadBelowbreve => '◌',
            ComposeFeedSym::DeadBelowdiaeresis => '◌',
            ComposeFeedSym::DeadInvertedbreve => '◌',
        };
        string.push(symbol);
        if let Some(mark) = mark {
            string.push(mark);
        }
        assert(string@ =~= old(string)@ + self.shown(is_last));
    }
}

/// A key of a composition sequence.
pub struct ComposeKey {
    pub keysym: KeySym,
    /// How the key is shown, if not as the text that it types.
    pub special: Option<ComposeFeedSym>,
    /// The text that the key types, empty if it types none.
    pub text: String,
}

impl ComposeKey {
    /// What the key adds to the text of a composition.
    pub open spec fn shown(self, is_last: bool) -> Seq<char> {
        match self.special {
            Some(symbol) => symbol.shown(is_last),
            None => self.text@,
        }
    }

    pub open spec fn is_compose(self) -> bool {
        self.special == Some(ComposeFeedSym::Compose)
    }
}

/// What keys show once another key has followed them.
pub open spec fn settled(keys: Seq<ComposeKey>) -> Seq<char>
    decreases keys.len(),
{
    if keys.len() == 0 {
        Seq::empty()
    } else {
        settled(keys.drop_last()) + keys.last().shown(false)
    }
}

/// What a whole sequence shows: every key in turn, and the compose key only if it is the last.
pub open spec fn shown(keys: Seq<ComposeKey>) -> Seq<char> {
    if keys.len() == 0 {
        Seq::empty()
    } else {
        settled(keys.drop_last()) + keys.last().shown(true)
    }
}

/// Following a sequence with one more key keeps what it shows, but for a trailing compose key.
proof fn lemma_settled(keys: Seq<ComposeKey>)
    requires
        keys.len() > 0,
    ensures
        keys.last().is_compose() ==> shown(keys).len() > 0 && settled(keys) == shown(
            keys,
        ).drop_last() && shown(keys).last() == '·',
        !keys.last().is_compose() ==> settled(keys) == shown(keys),
{
    if keys.last().is_compose() {
        assert(shown(keys) =~= settled(keys.drop_last()) + seq!['·']);
        assert(settled(keys) =~= settled(keys.drop_last()));
        assert(shown(keys).drop_last() =~= settled(keys));
    } else {
        assert(settled(keys) =~= shown(keys));
    }
}

/// What taking the last key back does to a composition of `keys`.
pub open spec fn after_backspace(keys: Seq<ComposeKey>) -> Outcome {
    if keys.len() <= 1 {
        Outcome::Cancelled(Seq::empty())
    } else {
        Outcome::Updated { text: shown(keys.drop_last()), just_started: false }
    }
}

/// What the compose table made of a keysym that was fed to it.
pub enum ComposeAnswer {
    /// The keysym had no effect, it was for example a modifier.
    Ignored,
    /// No sequence is under way.
    Nothing,
    /// The keysym started or advanced a sequence.
    Composing,
    /// The sequence is complete. The result is one character if it has a keysym of its own that
    /// stands for one, and otherwise this text.
    Composed { symbol: Option<char>, text: String },
    /// The sequence cannot be completed.
    Cancelled,
}

/// What has to be asked of the compose table for a key press.
pub enum ComposeRequest {
    /// Nothing.
    Skip,
    /// Reset the table, and feed it these keysyms in turn.
    Replay(Vec<KeySym>),
    /// Feed it the keysym of the press.
    Feed,
}

/// Keyboard state and the composition that is under way.
pub struct KeyEventsState {
    mod_indices: ModsIndices,
    has_table: bool,
    active_mods: Modifiers,
    is_composing: bool,
    compose_sequence: Vec<ComposeKey>,
    compose_string: String,
    previous_was_compose: bool,
}

impl KeyEventsState {
    /// The positions of the modifiers in the keymap.
    pub closed spec fn indices(self) -> ModsIndices {
        self.mod_indices
    }

    /// Whether there is a compose table for the user's locale.
    pub closed spec fn table(self) -> bool {
        self.has_table
    }

    /// The modifiers in effect.
    pub closed spec fn mods(self) -> Modifiers {
        self.active_mods
    }

    /// Whether a sequence is under way.
    pub closed spec fn composing(self) -> bool {
        self.is_composing
    }

    /// The keys of the sequence that is under way.
    pub closed spec fn sequence(self) -> Seq<ComposeKey> {
        self.compose_sequence@
    }

    /// The text that a composition would leave behind if it were cancelled now.
    pub open spec fn left_behind(self) -> Seq<char> {
        settled(self.sequence())
    }

    /// The text that is kept always is what the sequence shows. The sequence of a composition
    /// that was stopped stays, until its text is asked for or another composition starts.
    pub closed spec fn wf(self) -> bool {
        &&& self.is_composing ==> self.has_table && self.compose_sequence@.len() > 0
        &&& self.compose_sequence@.len() > 0 ==> {
            &&& self.compose_string@ == shown(self.compose_sequence@)
            &&& self.previous_was_compose == self.compose_sequence@.last().is_compose()
        }
    }

    /// The parts that composing does not touch.
    pub open spec fn same_keyboard(self, other: KeyEventsState) -> bool {
        &&& self.indices() == other.indices()
        &&& self.table() == other.table()
        &&& self.mods() == other.mods()
    }

    /// The keys of the current sequence followed by `key`; `key` alone starts a new one.
    pub open spec fn with_key(self, key: ComposeKey) -> Seq<ComposeKey> {
        if self.composing() {
            self.sequence().push(key)
        } else {
            seq![key]
        }
    }

    /// What a press does to the composition.
    pub open spec fn outcome(
        self,
        key: ComposeKey,
        is_backspace: bool,
        answer: ComposeAnswer,
    ) -> Outcome {
        if !self.table() {
            Outcome::NoComposition
        } else if self.composing() && is_backspace {
            after_backspace(self.sequence())
        } else {
            match answer {
                ComposeAnswer::Ignored | ComposeAnswer::Nothing => Outcome::NoComposition,
                ComposeAnswer::Composing => Outcome::Updated {
                    text: shown(self.with_key(key)),
                    just_started: !self.composing(),
                },
                ComposeAnswer::Composed { symbol: Some(ch), text } => Outcome::Finished(seq![ch]),
                ComposeAnswer::Composed { symbol: None, text } => Outcome::Finished(text@),
                ComposeAnswer::Cancelled => Outcome::Cancelled(
                    if self.composing() {
                        self.left_behind()
                    } else {
                        Seq::empty()
                    },
                ),
            }
        }
    }

    /// The sequence after a press, if one is then under way.
    pub open spec fn next_keys(
        self,
        key: ComposeKey,
        is_backspace: bool,
        answer: ComposeAnswer,
    ) -> Option<Seq<ComposeKey>> {
        match self.outcome(key, is_backspace, answer) {
            Outcome::NoComposition => if self.composing() {
                Some(self.sequence())
            } else {
                None
            },
            Outcome::Updated { .. } => if is_backspace && self.composing() {
                Some(self.sequence().drop_last())
            } else {
                Some(self.with_key(key))
            },
            Outcome::Cancelled(_) | Outcome::Finished(_) => None,
        }
    }

    /// The keys that are kept after a press: a composition that ends keeps none, and a press that
    /// is not part of one leaves them as they are.
    pub open spec fn keys_after(
        self,
        key: ComposeKey,
        is_backspace: bool,
        answer: ComposeAnswer,
    ) -> Seq<ComposeKey> {
        match self.outcome(key, is_backspace, answer) {
            Outcome::Cancelled(_) | Outcome::Finished(_) => Seq::empty(),
            _ => match self.next_keys(key, is_backspace, answer) {
                Some(keys) => keys,
                None => self.sequence(),
            },
        }
    }

    /// The state of a keyboard on which nothing is held and nothing composed.
    pub fn new(mod_indices: ModsIndices, has_table: bool) -> (state: KeyEventsState)
        ensures
            state.wf(),
            state.indices() == mod_indices,
            state.table() == has_table,
            state.mods() == Modifiers::of(0),
            !state.composing(),
            state.sequence().len() == 0,
    {
        KeyEventsState {
            mod_indices,
            has_table,
            active_mods: Modifiers::empty(),
            is_composing: false,
            compose_sequence: Vec::new(),
            compose_string: String::new(),
            previous_was_compose: false,
        }
    }

    /// The modifiers in effect.
    pub fn active_mods(&self) -> (mods: Modifiers)
        ensures
            mods == self.mods(),
    {
        self.active_mods
    }

    /// Whether a sequence is under way.
    pub fn is_composing(&self) -> (composing: bool)
        ensures
            composing == self.composing(),
    {
        self.is_composing
    }

    /// The positions of the modifiers in the keymap.
    pub fn mod_indices(&self) -> (indices: ModsIndices)
        ensures
            indices == self.indices(),
    {
        self.mod_indices
    }

    /// Stop the active composition. Returns whether there was one.
    ///
    /// This should happen if the text field changes, or the selection within the text field changes
    /// or the IME is activated. The compose table, if there is one, has to be reset as well.
    pub fn cancel_composing(&mut self) -> (was_composing: bool)
        requires
            old(self).wf(),
        ensures
            final(self).wf(),
            was_composing == old(self).composing(),
            !final(self).composing(),
            final(self).sequence() == old(self).sequence(),
            final(self).same_keyboard(*old(self)),
    {
        let was_composing = self.is_composing;
        self.is_composing = false;
        was_composing
    }

    /// Takes over the modifiers that are in effect after the window system reported a change.
    pub fn update_xkb_state(&mut self, effective: EffectiveMods)
        requires
            old(self).wf(),
        ensures
            final(self).wf(),
            final(self).mods() == Modifiers::of(effective.flags()),
            final(self).indices() == old(self).indices(),
            final(self).table() == old(self).table(),
            final(self).composing() == old(self).composing(),
            final(self).sequence() == old(self).sequence(),
    {
        self.active_mods = effective.modifiers();
    }

    /// The key event which is passed to the `key_down` handler, before any composition.
    pub fn key_event(&self, resolved: ResolvedKey, state: KeyState, repeat: bool) -> (event: KeyEvent)
        ensures
            event == (KeyEvent {
                state,
                key: resolved.key,
                code: resolved.code,
                location: resolved.location,
                mods: self.mods(),
                repeat,
                is_composing: self.composing(),
            }),
    {
        KeyEvent {
            state,
            key: resolved.key,
            code: resolved.code,
            location: resolved.location,
            mods: self.active_mods,
            repeat,
            is_composing: self.is_composing,
        }
    }

    /// What has to be asked of the compose table for a press, before [`Self::compose_key_down`].
    pub fn compose_request(&self, is_backspace: bool) -> (request: ComposeRequest)
        requires
            self.wf(),
        ensures
            self.asks_the_table(is_backspace, request),
    {
        if !self.has_table {
            return ComposeRequest::Skip;
        }
        if self.is_composing && is_backspace {
            let mut keysyms: Vec<KeySym> = Vec::new();
            let mut i: usize = 0;
            while i < self.compose_sequence.len() - 1
                invariant
                    self.compose_sequence.len() > 0,
                    i <= self.compose_sequence.len() - 1,
                    keysyms@ == self.compose_sequence@.take(i as int).map_values(
                        |key: ComposeKey| key.keysym,
                    ),
                decreases self.compose_sequence.len() - i,
            {
                keysyms.push(self.compose_sequence[i].keysym);
                i += 1;
                assert(keysyms@ =~= self.compose_sequence@.take(i as int).map_values(
                    |key: ComposeKey| key.keysym,
                ));
            }
            assert(self.compose_sequence@.take(i as int) =~= self.compose_sequence@.drop_last());
            return ComposeRequest::Replay(keysyms);
        }
        ComposeRequest::Feed
    }

    /// Alert the composition pipeline of a new key down event
    ///
    /// Should only be called if we're currently in a text input field.
    /// This will calculate:
    ///  - Whether composition is active
    ///  - If so, what the new composition range displayed to
    ///    the user should be (and if it changed)
    ///  - If composition finished, what the inserted string should be
    ///  - Otherwise, does nothing
    ///
    /// `answer` is what the compose table said if [`Self::compose_request`] asked to feed it the
    /// keysym. The table reports that no sequence is under way only if none is.
    pub fn compose_key_down<'a>(
        &'a mut self,
        key: ComposeKey,
        is_backspace: bool,
        answer: ComposeAnswer,
    ) -> (result: CompositionResult<'a>)
        requires
            old(self).wf(),
            answer is Nothing ==> !old(self).composing(),
        ensures
            final(self).wf(),
            final(self).same_keyboard(*old(self)),
            result@ == old(self).outcome(key, is_backspace, answer),
            final(self).composing() == (old(self).next_keys(key, is_backspace, answer) is Some),
            final(self).sequence() == old(self).keys_after(key, is_backspace, answer),
    {
        if !self.has_table {
            // If we couldn't make a compose map, there's nothing to do
            return CompositionResult::NoComposition;
        }
        if self.is_composing && is_backspace {
            return self.compose_handle_backspace();
        }
        match answer {
            ComposeAnswer::Ignored | ComposeAnswer::Nothing => CompositionResult::NoComposition,
            ComposeAnswer::Composing => {
                let just_started = !self.is_composing;
                if just_started {
                    // The previous composition may have left its sequence and its text behind
                    self.compose_sequence = Vec::new();
                    self.compose_string = String::new();
                    self.previous_was_compose = false;
                    self.is_composing = true;
                }
                let ghost keys = self.compose_sequence@;
                proof {
                    if !just_started {
                        lemma_settled(keys);
                    }
                }
                if self.previous_was_compose {
                    let _popped = self.compose_string.pop();
                    assert(_popped == Some('·'));
                    self.previous_was_compose = false;
                }
                assert(self.compose_string@ == settled(keys));
                let key_is_last = true;
                Self::append_key_to_compose(
                    &mut self.compose_string,
                    &key,
                    key_is_last,
                    &mut self.previous_was_compose,
                );
                self.compose_sequence.push(key);
                assert(self.compose_sequence@.drop_last() =~= keys);
                assert(self.compose_sequence@ =~= old(self).with_key(key));
                CompositionResult::Updated { text: self.compose_string.as_str(), just_started }
            },
            ComposeAnswer::Composed { symbol, text } => {
                self.compose_sequence = Vec::new();
                self.is_composing = false;
                // Ideally composition results in a single character
                match symbol {
                    Some(ch) => {
                        let mut single = String::new();
                        single.push(ch);
                        assert(single@ =~= seq![ch]);
                        self.compose_string = single;
                    },
                    None => {
                        self.compose_string = text;
                    },
                }
                CompositionResult::Finished(self.compose_string.as_str())
            },
            ComposeAnswer::Cancelled => {
                if !self.is_composing {
                    self.compose_sequence = Vec::new();
                }
                CompositionResult::Cancelled(self.cancelled_string())
            },
        }
    }

    /// Ends the composition, and gives the text that it leaves in the document: what it showed,
    /// but for the placeholder of a compose key. This may follow [`Self::cancel_composing`].
    pub fn cancelled_string<'a>(&'a mut self) -> (text: &'a str)
        requires
            old(self).wf(),
        ensures
            final(self).wf(),
            final(self).same_keyboard(*old(self)),
            !final(self).composing(),
            final(self).sequence().len() == 0,
            text@ == old(self).left_behind(),
    {
        if self.compose_sequence.len() > 0 {
            proof {
                lemma_settled(self.compose_sequence@);
            }
            if self.previous_was_compose {
                let _popped = self.compose_string.pop();
                assert(_popped == Some('·'));
            }
        } else {
            self.compose_string = String::new();
        }
        self.previous_was_compose = false;
        self.is_composing = false;
        self.compose_sequence = Vec::new();
        self.compose_string.as_str()
    }

    /// Removes the last key of the sequence, and shows the rest of it.
    fn compose_handle_backspace<'a>(&'a mut self) -> (result: CompositionResult<'a>)
        requires
            old(self).wf(),
            old(self).composing(),
        ensures
            final(self).wf(),
            final(self).same_keyboard(*old(self)),
            result@ == after_backspace(old(self).sequence()),
            final(self).composing() == (old(self).sequence().len() > 1),
            final(self).sequence() == old(self).sequence().drop_last(),
    {
        let _ = self.compose_sequence.pop();
        let ghost rest = self.compose_sequence@;
        assert(rest =~= old(self).sequence().drop_last());
        self.compose_string = String::new();
        if self.compose_sequence.len() == 0 {
            self.is_composing = false;
            self.previous_was_compose = false;
            return CompositionResult::Cancelled(self.compose_string.as_str());
        }
        let last_index: usize = self.compose_sequence.len() - 1;
        let mut last_is_compose = false;
        let mut i: usize = 0;
        while i < self.compose_sequence.len()
            invariant
                self.compose_sequence@ == rest,
                rest.len() > 0,
                last_index == rest.len() - 1,
                i <= rest.len(),
                i < rest.len() ==> !last_is_compose && self.compose_string@ == settled(
                    rest.take(i as int),
                ),
                i == rest.len() ==> self.compose_string@ == shown(rest) && last_is_compose
                    == rest.last().is_compose(),
                self.is_composing == old(self).is_composing,
                self.has_table == old(self).has_table,
                self.active_mods == old(self).active_mods,
                self.mod_indices == old(self).mod_indices,
            decreases rest.len() - i,
        {
            Self::append_key_to_compose(
                &mut self.compose_string,
                &self.compose_sequence[i],
                i == last_index,
                &mut last_is_compose,
            );
            proof {
                assert(rest.take(i as int + 1).drop_last() =~= rest.take(i as int));
                if i == last_index {
                    assert(rest.drop_last() =~= rest.take(i as int));
                }
            }
            i += 1;
        }
        self.previous_was_compose = last_is_compose;
        CompositionResult::Updated { text: self.compose_string.as_str(), just_started: false }
    }

    /// Appends what `key` shows.
    fn append_key_to_compose(
        compose_string: &mut String,
        key: &ComposeKey,
        is_last: bool,
        last_is_compose: &mut bool,
    )
        ensures
            final(compose_string)@ == old(compose_string)@ + key.shown(is_last),
            *final(last_is_compose) == (*old(last_is_compose) || (key.is_compose() && is_last)),
    {
        if let Some(special) = key.special {
            special.append_to(compose_string, is_last, last_is_compose);
        } else {
            compose_string.append(key.text.as_str());
        }
    }

    /// Taking back a key returns to what the composition was before it: it shows the same text, and
    /// goes on from the same keys. Taking back the first key ends the composition, and leaves
    /// nothing behind.
    pub proof fn law_backspace_undoes_a_key(
        before: KeyEventsState,
        after: KeyEventsState,
        key: ComposeKey,
        backspace: ComposeKey,
        answer: ComposeAnswer,
    )
        requires
            before.wf(),
            after.table(),
            after.composing(),
            after.sequence() == before.with_key(key),
        ensures
            before.composing() ==> {
                &&& after.outcome(backspace, true, answer) == (Outcome::Updated {
                    text: shown(before.sequence()),
                    just_started: false,
                })
                &&& after.next_keys(backspace, true, answer) == Some(before.sequence())
            },
            !before.composing() ==> {
                &&& after.outcome(backspace, true, answer) == Outcome::Cancelled(Seq::empty())
                &&& after.next_keys(backspace, true, answer) is None
            },
    {
        if before.composing() {
            assert(before.sequence().push(key).drop_last() =~= before.sequence());
        }
    }

    /// A key that the compose table ignores, such as a modifier, changes nothing: a composition
    /// that is under way goes on with the same keys, and the press is none of it. The same holds of
    /// a press while no composition is under way, and of every press without a table.
    pub proof fn law_ignored_keys_change_nothing(
        self,
        key: ComposeKey,
        is_backspace: bool,
        answer: ComposeAnswer,
    )
        requires
            !self.table() || (!(self.composing() && is_backspace) && (answer is Ignored
                || answer is Nothing)),
        ensures
            self.outcome(key, is_backspace, answer) == Outcome::NoComposition,
            self.next_keys(key, is_backspace, answer) is Some == self.composing(),
            self.composing() ==> self.next_keys(key, is_backspace, answer) == Some(
                self.sequence(),
            ),
            self.keys_after(key, is_backspace, answer) == self.sequence(),
    {
    }

    /// A press that the compose table takes up adds itself to the keys of the composition, as the
    /// last one, and all of the others stay; the first press of a composition stands alone. The
    /// composition then shows these keys, and says whether it has just started.
    pub proof fn law_composed_keys_add_up(
        self,
        key: ComposeKey,
        is_backspace: bool,
        answer: ComposeAnswer,
    )
        requires
            self.table(),
            !(self.composing() && is_backspace),
            answer is Composing,
        ensures
            ({
                let keys = self.keys_after(key, is_backspace, answer);
                &&& self.next_keys(key, is_backspace, answer) == Some(keys)
                &&& keys.len() > 0 && keys.last() == key
                &&& self.composing() ==> keys.drop_last() == self.sequence()
                &&& !self.composing() ==> keys.len() == 1
                &&& self.outcome(key, is_backspace, answer) == (Outcome::Updated {
                    text: shown(keys),
                    just_started: !self.composing(),
                })
            }),
    {
        assert(self.sequence().push(key).drop_last() =~= self.sequence());
    }

    /// A composition ends exactly when it is finished, cancelled or taken back to its start, and
    /// then keeps no keys. What is finished is one character where there is one, and else the text
    /// of the table; what is cancelled leaves what it showed, but for the placeholder of a compose
    /// key, and nothing if nothing was composed.
    pub proof fn law_compositions_end(
        self,
        key: ComposeKey,
        is_backspace: bool,
        answer: ComposeAnswer,
    )
        requires
            self.wf(),
            self.table(),
            answer is Nothing ==> !self.composing(),
        ensures
            ({
                let backspace = self.composing() && is_backspace;
                let ends = if backspace {
                    self.sequence().len() <= 1
                } else {
                    answer is Composed || answer is Cancelled
                };
                let outcome = self.outcome(key, is_backspace, answer);
                let now = self.next_keys(key, is_backspace, answer) is Some;
                &&& ends ==> !now && self.keys_after(key, is_backspace, answer).len() == 0
                &&& now == (!ends && (self.composing() || answer is Composing))
                &&& !backspace ==> (answer matches ComposeAnswer::Composed { symbol, text }
                    ==> outcome == Outcome::Finished(
                    if symbol is Some {
                        seq![symbol->0]
                    } else {
                        text@
                    },
                ))
                &&& !backspace && answer is Cancelled ==> outcome is Cancelled && ({
                    let left = outcome->Cancelled_0;
                    let was = shown(self.sequence());
                    &&& !self.composing() ==> left.len() == 0
                    &&& self.composing() && !self.sequence().last().is_compose() ==> left == was
                    &&& self.composing() && self.sequence().last().is_compose() ==> was
                        == left.push('·')
                })
                &&& backspace && ends ==> (outcome matches Outcome::Cancelled(left) && left.len()
                    == 0)
                &&& backspace && !ends ==> self.keys_after(key, is_backspace, answer)
                    == self.sequence().drop_last() && outcome == (Outcome::Updated {
                    text: shown(self.sequence().drop_last()),
                    just_started: false,
                })
            }),
    {
        if self.composing() {
            lemma_settled(self.sequence());
            if self.sequence().last().is_compose() {
                assert(shown(self.sequence()) =~= settled(self.sequence()).push('·'));
            }
        }
    }

    /// What a composition would leave behind is what it shows, but for the placeholder of a compose
    /// key at its end.
    pub proof fn law_compositions_leave_what_they_show(self)
        requires
            self.sequence().len() > 0,
        ensures
            !self.sequence().last().is_compose() ==> self.left_behind() == shown(self.sequence()),
            self.sequence().last().is_compose() ==> self.left_behind().push('·') == shown(
                self.sequence(),
            ),
    {
        lemma_settled(self.sequence());
        if self.sequence().last().is_compose() {
            assert(self.left_behind().push('·') =~= shown(self.sequence()));
        }
    }

    /// A sequence that is under way has keys, and a table.
    pub proof fn law_compositions_have_keys(self)
        requires
            self.wf(),
            self.composing(),
        ensures
            self.sequence().len() > 0,
            self.table(),
    {
    }

    /// Keys that are no dead keys and no compose keys show the text that they type, one after the
    /// other.
    pub proof fn law_plain_keys_show_their_text(keys: Seq<ComposeKey>, key: ComposeKey)
        requires
            key.special is None,
            keys.len() > 0 ==> !keys.last().is_compose(),
        ensures
            shown(keys.push(key)) == shown(keys) + key.text@,
    {
        let more = keys.push(key);
        assert(more.drop_last() =~= keys);
        if keys.len() > 0 {
            lemma_settled(keys);
        } else {
            assert(settled(keys) =~= shown(keys));
        }
    }

    /// A dead key shows its accent wherever it stands, and only the compose key goes out of sight;
    /// each of them shows something of its own while it is the last one. Accents that have no sign
    /// of their own are shown on a dotted circle.
    pub proof fn law_dead_keys_are_seen(symbol: ComposeFeedSym, is_last: bool)
        ensures
            symbol != ComposeFeedSym::Compose ==> symbol.shown(is_last) == symbol.symbol()
                && symbol.symbol().len() >= 1,
            ComposeFeedSym::Compose.shown(true) == seq!['·'],
            ComposeFeedSym::Compose.shown(false).len() == 0,
            symbol.symbol().len() == 2 <==> symbol.symbol()[0] == '◌',
            symbol.symbol().len() <= 2,
            symbol.symbol().len() == 2 ==> 0x0300 <= symbol.symbol()[1] as u32 <= 0x036f,
            symbol.symbol()[0] == '·' <==> symbol == ComposeFeedSym::Compose,
            // Accents that Latin letters carry, and their spacing forms.
            symbol.symbol()[0] == '~' <==> symbol == ComposeFeedSym::DeadTilde,
            symbol.symbol()[0] == '^' <==> symbol == ComposeFeedSym::DeadCircumflex,
            symbol.symbol()[0] == '´' <==> symbol == ComposeFeedSym::DeadAcute || symbol
                == ComposeFeedSym::DeadAbovecomma,
            symbol.symbol()[0] == '`' <==> symbol == ComposeFeedSym::DeadGrave || symbol
                == ComposeFeedSym::DeadAbovereversedcomma,
            symbol.symbol()[0] == '¨' <==> symbol == ComposeFeedSym::DeadDiaeresis,
            symbol.symbol()[0] == '°' <==> symbol == ComposeFeedSym::DeadAbovering,
            symbol.symbol()[0] == '¯' <==> symbol == ComposeFeedSym::DeadMacron,
            symbol.symbol()[0] == '˘' <==> symbol == ComposeFeedSym::DeadBreve,
            symbol.symbol()[0] == '˙' <==> symbol == ComposeFeedSym::DeadAbovedot,
            symbol.symbol()[0] == '˝' <==> symbol == ComposeFeedSym::DeadDoubleacute,
            symbol.symbol()[0] == 'ˇ' <==> symbol == ComposeFeedSym::DeadCaron,
            symbol.symbol()[0] == '¸' <==> symbol == ComposeFeedSym::DeadCedilla,
            symbol.symbol()[0] == '˛' <==> symbol == ComposeFeedSym::DeadOgonek,
            symbol.symbol()[0] == 'ͺ' <==> symbol == ComposeFeedSym::DeadIota,
            symbol.symbol()[0] == ',' <==> symbol == ComposeFeedSym::DeadBelowcomma,
            symbol.symbol()[0] == '¤' <==> symbol == ComposeFeedSym::DeadCurrency,
            symbol.symbol()[0] == 'µ' <==> symbol == ComposeFeedSym::DeadGreek,
            symbol.symbol()[0] == '/' <==> symbol == ComposeFeedSym::DeadStroke,
            symbol.symbol()[0] == '"' <==> symbol == ComposeFeedSym::DeadBelowdot || symbol
                == ComposeFeedSym::DeadHook || symbol == ComposeFeedSym::DeadHorn,
            symbol.symbol()[0] == '゛' <==> symbol == ComposeFeedSym::DeadVoicedSound,
            symbol.symbol()[0] == '゜' <==> symbol == ComposeFeedSym::DeadSemivoicedSound,
            symbol.symbol()[0] == '˳' <==> symbol == ComposeFeedSym::DeadBelowring,
            symbol.symbol()[0] == 'ˍ' <==> symbol == ComposeFeedSym::DeadBelowmacron,
            symbol.symbol()[0] == '‸' <==> symbol == ComposeFeedSym::DeadBelowcircumflex,
            symbol.symbol()[0] == '˷' <==> symbol == ComposeFeedSym::DeadBelowtilde,
            symbol.symbol() == seq!['◌', '\u{030f}'] <==> symbol
                == ComposeFeedSym::DeadDoublegrave,
            symbol.symbol() == seq!['◌', '\u{032e}'] <==> symbol == ComposeFeedSym::DeadBelowbreve,
            symbol.symbol() == seq!['◌', '\u{0324}'] <==> symbol
                == ComposeFeedSym::DeadBelowdiaeresis,
            symbol.symbol() == seq!['◌', '\u{0311}'] <==> symbol
                == ComposeFeedSym::DeadInvertedbreve,
    {
        let marks = symbol.symbol();
        if marks.len() == 2 {
            assert(marks =~= seq!['◌', marks[1]]);
        }
        assert(seq!['◌', '\u{030f}'][1] == '\u{030f}');
        assert(seq!['◌', '\u{032e}'][1] == '\u{032e}');
        assert(seq!['◌', '\u{0324}'][1] == '\u{0324}');
        assert(seq!['◌', '\u{0311}'][1] == '\u{0311}');
    }

    /// The placeholder of a compose key is overwritten by whatever key follows it.
    pub proof fn law_compose_placeholder_is_overwritten(
        before: Seq<ComposeKey>,
        compose: ComposeKey,
        next: ComposeKey,
    )
        requires
            compose.is_compose(),
        ensures
            shown(before.push(compose)) == settled(before).push('·'),
            shown(before.push(compose).push(next)) == settled(before) + next.shown(true),
    {
        let two = before.push(compose);
        let three = two.push(next);
        assert(two.drop_last() =~= before);
        assert(three.drop_last() =~= two);
        assert(shown(two) =~= settled(before).push('·'));
        assert(settled(two) =~= settled(before));
    }
}

impl KeyEventsState {
    /// Whether a request is what the table is to be asked about a key.
    pub open spec fn asks_the_table(self, is_backspace: bool, request: ComposeRequest) -> bool {
        match request {
            ComposeRequest::Skip => !self.table(),
            ComposeRequest::Replay(keysyms) => {
                &&& self.composing() && is_backspace
                &&& keysyms@ == self.sequence().drop_last().map_values(
                    |key: ComposeKey| key.keysym,
                )
            },
            ComposeRequest::Feed => self.table() && !(self.composing() && is_backspace),
        }
    }

    /// A table is asked about every key, if there is one. Only a backspace in a composition has it
    /// begin again: with all the keys of the composition but the last, in order.
    pub proof fn law_backspace_replays_the_earlier_keys(
        self,
        is_backspace: bool,
        request: ComposeRequest,
        i: int,
    )
        requires
            self.wf(),
            self.asks_the_table(is_backspace, request),
        ensures
            (request is Skip) == !self.table(),
            (request is Replay) == (self.composing() && is_backspace),
            request matches ComposeRequest::Replay(keysyms) ==> {
                &&& keysyms@.len() == self.sequence().len() - 1
                &&& 0 <= i < keysyms@.len() ==> keysyms@[i] == self.sequence()[i].keysym
            },
    {
    }
}

} // verus!
