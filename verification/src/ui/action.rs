//! Commands of the preview window and the key bindings that trigger them.

use crate::input::MappingDefinition;
use crate::text::{joined, same_text};
use std::collections::HashMap;
use vstd::prelude::*;
use vstd::string::*;

verus! {

/// A command of the preview window. It carries no data and does nothing by
/// itself: the window decides what each one means.
#[derive(Clone, Copy, Debug, PartialEq, Eq, Structural)]
pub enum Action {
    /// Does nothing: binding a key to it unbinds the key.
    Noop,
    /// Scroll up by a small step.
    SmallScrollUp,
    /// Scroll down by a small step.
    SmallScrollDown,
    /// Scroll up by a large step.
    BigScrollUp,
    /// Scroll down by a large step.
    BigScrollDown,
    /// Jump to the top of the document.
    ScrollToTop,
    /// Jump to the bottom of the document.
    ScrollToBottom,
    /// Leave the application.
    Quit,
    /// Start the configured editor beside the preview.
    LaunchEditor,
    /// Replace the preview by the configured editor.
    ExecEditor,
    /// Zoom in by a tenth.
    ZoomIn,
    /// Zoom out by a tenth.
    ZoomOut,
    /// Go back to the configured zoom level.
    ZoomReset,
    /// Show the help popup.
    ShowHelp,
}

/// The modifier keys held down with a key: any of control, shift and alt.
#[derive(Clone, Copy, Debug, PartialEq, Eq, Structural)]
pub struct Modifiers {
    /// Control is held.
    pub control: bool,
    /// Shift is held.
    pub shift: bool,
    /// Alt is held.
    pub alt: bool,
}

impl Modifiers {
    /// No modifier.
    pub fn empty() -> (m: Modifiers)
        ensures
            m == (Modifiers { control: false, shift: false, alt: false }),
    {
        Modifiers { control: false, shift: false, alt: false }
    }

    /// Control alone.
    pub fn control() -> (m: Modifiers)
        ensures
            m == (Modifiers { control: true, shift: false, alt: false }),
    {
        Modifiers { control: true, shift: false, alt: false }
    }

    /// Shift alone.
    pub fn shift() -> (m: Modifiers)
        ensures
            m == (Modifiers { control: false, shift: true, alt: false }),
    {
        Modifiers { control: false, shift: true, alt: false }
    }

    /// Alt alone.
    pub fn alt() -> (m: Modifiers)
        ensures
            m == (Modifiers { control: false, shift: false, alt: true }),
    {
        Modifiers { control: false, shift: false, alt: true }
    }

    /// The modifiers of `self` and those of `other` together.
    pub open spec fn spec_union(self, other: Modifiers) -> Modifiers {
        Modifiers {
            control: self.control || other.control,
            shift: self.shift || other.shift,
            alt: self.alt || other.alt,
        }
    }

    /// The modifiers of `self` and those of `other` together.
    #[verifier::when_used_as_spec(spec_union)]
    pub fn union(self, other: Modifiers) -> (m: Modifiers)
        ensures
            m == self.spec_union(other),
    {
        Modifiers {
            control: self.control || other.control,
            shift: self.shift || other.shift,
            alt: self.alt || other.alt,
        }
    }

    /// `self` with shift held as well.
    pub open spec fn spec_with_shift(self) -> Modifiers {
        Modifiers { control: self.control, shift: true, alt: self.alt }
    }

    /// `self` with shift held as well.
    #[verifier::when_used_as_spec(spec_with_shift)]
    pub fn with_shift(self) -> (m: Modifiers)
        ensures
            m == self.spec_with_shift(),
    {
        Modifiers { control: self.control, shift: true, alt: self.alt }
    }

    /// The set as a number below 8: control counts 1, shift 2, alt 4.
    pub open spec fn bits(self) -> int {
        (if self.control { 1int } else { 0 }) + (if self.shift { 2int } else { 0 }) + (if self.alt {
            4int
        } else {
            0
        })
    }
}

/// A key as the keyboard tables describe it: its code, whether the tables
/// count it as an upper (shifted) form, and the code of its lower form.
///
/// A capital letter is upper and has the small letter as its lower form. A
/// key without case, such as `+` or `F1`, is its own upper and its own lower
/// form.
#[derive(Clone, Copy, Debug, PartialEq, Eq, Structural)]
pub struct Key {
    /// The key's code.
    pub code: u32,
    /// Whether the key is an upper form.
    pub upper: bool,
    /// The code of the key's lower form.
    pub lower: u32,
}

impl Key {
    /// A key from what the keyboard tables say of it.
    pub fn new(code: u32, upper: bool, lower: u32) -> (k: Key)
        ensures
            k == (Key { code, upper, lower }),
    {
        Key { code, upper, lower }
    }

    /// A key that has an upper form other than itself, such as a small letter.
    pub fn lowercase(code: u32) -> (k: Key)
        ensures
            k == (Key { code, upper: false, lower: code }),
    {
        Key { code, upper: false, lower: code }
    }

    /// An upper form with its lower form, such as a capital letter.
    pub fn uppercase(code: u32, lower: u32) -> (k: Key)
        ensures
            k == (Key { code, upper: true, lower }),
    {
        Key { code, upper: true, lower }
    }

    /// A key without case: it is its own upper and its own lower form.
    pub fn caseless(code: u32) -> (k: Key)
        ensures
            k == (Key { code, upper: true, lower: code }),
    {
        Key { code, upper: true, lower: code }
    }
}

/// What a binding is stored and looked up under: modifiers and the code of a
/// key in its lower form.
#[derive(Clone, Copy, Debug, PartialEq, Eq, Structural)]
pub struct KeyBinding {
    /// The modifiers held.
    pub modifiers: Modifiers,
    /// The code of the key.
    pub code: u32,
}

/// The binding that a key pressed with modifiers stands for: an upper key
/// becomes its lower form with shift held, any other key stays as it is.
pub open spec fn normalized(modifiers: Modifiers, key: Key) -> KeyBinding {
    if key.upper {
        KeyBinding { modifiers: modifiers.spec_with_shift(), code: key.lower }
    } else {
        KeyBinding { modifiers, code: key.code }
    }
}

/// The action that `bindings` holds for `binding`, `Noop` where it holds none.
pub open spec fn bound_action(bindings: Map<KeyBinding, Action>, binding: KeyBinding) -> Action {
    if bindings.contains_key(binding) {
        bindings[binding]
    } else {
        Action::Noop
    }
}

/// The action that `bindings` gives to a key pressed with modifiers.
pub open spec fn resolve(bindings: Map<KeyBinding, Action>, modifiers: Modifiers, key: Key) -> Action {
    bound_action(bindings, normalized(modifiers, key))
}

/// `bindings` after binding a key pressed with modifiers to an action.
pub open spec fn bind(
    bindings: Map<KeyBinding, Action>,
    modifiers: Modifiers,
    key: Key,
    action: Action,
) -> Map<KeyBinding, Action> {
    bindings.insert(normalized(modifiers, key), action)
}

/// The number under which a binding is stored.
spec fn slot(binding: KeyBinding) -> u64 {
    (binding.modifiers.bits() * 0x1_0000_0000 + binding.code) as u64
}

proof fn lemma_slot_is_one_to_one(a: KeyBinding, b: KeyBinding)
    ensures
        slot(a) == slot(b) <==> a == b,
{
}

/// The bindings from keys to actions.
pub struct Keymaps {
    mappings: HashMap<u64, Action>,
}

impl View for Keymaps {
    type V = Map<KeyBinding, Action>;

    closed spec fn view(&self) -> Map<KeyBinding, Action> {
        Map::new(
            |b: KeyBinding| self.mappings@.contains_key(slot(b)),
            |b: KeyBinding| self.mappings@[slot(b)],
        )
    }
}

impl Keymaps {
    /// No bindings at all.
    pub fn new() -> (keymaps: Keymaps)
        ensures
            keymaps@ == Map::<KeyBinding, Action>::empty(),
    {
        let keymaps = Keymaps { mappings: HashMap::new() };
        assert(keymaps@ =~= Map::<KeyBinding, Action>::empty());
        keymaps
    }

    /// The binding that `key` pressed with `modifiers` is stored and looked
    /// up under: an upper key becomes its lower form with shift held.
    pub fn normalize_input(key: Key, modifiers: Modifiers) -> (binding: KeyBinding)
        ensures
            binding == normalized(modifiers, key),
    {
        if key.upper {
            KeyBinding { modifiers: modifiers.with_shift(), code: key.lower }
        } else {
            KeyBinding { modifiers, code: key.code }
        }
    }

    fn slot_of(binding: KeyBinding) -> (s: u64)
        ensures
            s == slot(binding),
    {
        let mut bits: u64 = 0;
        if binding.modifiers.control {
            bits = bits + 1;
        }
        if binding.modifiers.shift {
            bits = bits + 2;
        }
        if binding.modifiers.alt {
            bits = bits + 4;
        }
        bits * 0x1_0000_0000 + binding.code as u64
    }

    /// The action bound to `key` pressed with `modifiers`, `Noop` where none
    /// is bound. An upper key counts as its lower form with shift held.
    pub fn get_action(&self, modifiers: Modifiers, key: Key) -> (action: Action)
        ensures
            action == resolve(self@, modifiers, key),
    {
        let binding = Self::normalize_input(key, modifiers);
        match self.mappings.get(&Self::slot_of(binding)) {
            Some(action) => *action,
            None => Action::Noop,
        }
    }

    /// Binds `key` pressed with `modifiers` to `action`, in place of what was
    /// bound to them before. Binding `Noop` unbinds. An upper key counts as
    /// its lower form with shift held.
    pub fn set_action(&mut self, modifiers: Modifiers, key: Key, action: Action)
        ensures
            final(self)@ == bind(old(self)@, modifiers, key, action),
    {
        let binding = Self::normalize_input(key, modifiers);
        self.insert(binding, action);
    }

    fn insert(&mut self, binding: KeyBinding, action: Action)
        ensures
            final(self)@ == old(self)@.insert(binding, action),
    {
        self.mappings.insert(Self::slot_of(binding), action);
        proof {
            assert forall|b: KeyBinding| slot(b) == slot(binding) <==> b == binding by {
                lemma_slot_is_one_to_one(b, binding);
            }
            assert(self@ =~= old(self)@.insert(binding, action));
        }
    }
}

/// The code of the key `j`.
pub const KEY_J: u32 = 0x6a;

/// The code of the key `k`.
pub const KEY_K: u32 = 0x6b;

/// The code of the key `g`.
pub const KEY_G: u32 = 0x67;

/// The code of the key `q`.
pub const KEY_Q: u32 = 0x71;

/// The code of the key `e`.
pub const KEY_E: u32 = 0x65;

/// The code of the key `+`.
pub const KEY_PLUS: u32 = 0x2b;

/// The code of the key `-`.
pub const KEY_MINUS: u32 = 0x2d;

/// The code of the key `=`.
pub const KEY_EQUAL: u32 = 0x3d;

/// The code of the key `F1`.
pub const KEY_F1: u32 = 0xffbe;

/// The binding of a key pressed alone.
pub open spec fn plain(code: u32) -> KeyBinding {
    KeyBinding { modifiers: Modifiers { control: false, shift: false, alt: false }, code }
}

/// The binding of a key pressed with shift.
pub open spec fn shifted(code: u32) -> KeyBinding {
    KeyBinding { modifiers: Modifiers { control: false, shift: true, alt: false }, code }
}

/// The binding of a key pressed with control.
pub open spec fn controlled(code: u32) -> KeyBinding {
    KeyBinding { modifiers: Modifiers { control: true, shift: false, alt: false }, code }
}

/// The bindings that every keymap starts with. The keys without case stand
/// under shift, as their normal form does.
pub open spec fn default_bindings() -> Map<KeyBinding, Action> {
    map![
        plain(KEY_J) => Action::SmallScrollDown,
        plain(KEY_K) => Action::SmallScrollUp,
        shifted(KEY_J) => Action::BigScrollDown,
        shifted(KEY_K) => Action::BigScrollUp,
        plain(KEY_G) => Action::ScrollToTop,
        shifted(KEY_G) => Action::ScrollToBottom,
        controlled(KEY_Q) => Action::Quit,
        plain(KEY_E) => Action::LaunchEditor,
        shifted(KEY_E) => Action::ExecEditor,
        shifted(KEY_PLUS) => Action::ZoomIn,
        shifted(KEY_MINUS) => Action::ZoomOut,
        shifted(KEY_EQUAL) => Action::ZoomReset,
        shifted(KEY_F1) => Action::ShowHelp,
    ]
}

impl Default for Keymaps {
    /// The default bindings: `j` and `k` scroll by a small step and with
    /// shift by a large one, `g` jumps to the top and with shift to the
    /// bottom, control and `q` quit, `e` launches the editor and with shift
    /// replaces the preview by it, `+`, `-` and `=` zoom, `F1` shows the help.
    fn default() -> (keymaps: Keymaps)
        ensures
            keymaps@ == default_bindings(),
    {
        let mut keymaps = Keymaps::new();
        keymaps.set_action(Modifiers::empty(), Key::lowercase(KEY_J), Action::SmallScrollDown);
        keymaps.set_action(Modifiers::empty(), Key::lowercase(KEY_K), Action::SmallScrollUp);
        keymaps.set_action(Modifiers::shift(), Key::lowercase(KEY_J), Action::BigScrollDown);
        keymaps.set_action(Modifiers::shift(), Key::lowercase(KEY_K), Action::BigScrollUp);
        keymaps.set_action(Modifiers::empty(), Key::lowercase(KEY_G), Action::ScrollToTop);
        keymaps.set_action(Modifiers::shift(), Key::lowercase(KEY_G), Action::ScrollToBottom);
        keymaps.set_action(Modifiers::control(), Key::lowercase(KEY_Q), Action::Quit);
        keymaps.set_action(Modifiers::empty(), Key::lowercase(KEY_E), Action::LaunchEditor);
        keymaps.set_action(Modifiers::shift(), Key::lowercase(KEY_E), Action::ExecEditor);
        keymaps.set_action(Modifiers::empty(), Key::caseless(KEY_PLUS), Action::ZoomIn);
        keymaps.set_action(Modifiers::empty(), Key::caseless(KEY_MINUS), Action::ZoomOut);
        keymaps.set_action(Modifiers::empty(), Key::caseless(KEY_EQUAL), Action::ZoomReset);
        keymaps.set_action(Modifiers::empty(), Key::caseless(KEY_F1), Action::ShowHelp);
        assert(keymaps@ =~= default_bindings());
        keymaps
    }
}

impl Clone for Keymaps {
    fn clone(&self) -> (copy: Keymaps)
        ensures
            copy@ == self@,
    {
        let copy = Keymaps { mappings: self.mappings.clone() };
        assert(copy@ =~= self@);
        copy
    }
}

/// Normalizing is idempotent: a key resolves to what its normal form resolves
/// to, whatever is bound.
///
/// `again` is the key that the keyboard tables hold under the code of the
/// normal form: `key` itself where that code is its own, and else a key that
/// has no lower form but itself.
pub proof fn lemma_normal_form_resolves_alike(
    bindings: Map<KeyBinding, Action>,
    modifiers: Modifiers,
    key: Key,
    again: Key,
)
    requires
        again.code == normalized(modifiers, key).code,
        again.code == key.code ==> again == key,
        key.upper && again.upper ==> again.lower == again.code,
    ensures
        normalized(normalized(modifiers, key).modifiers, again) == normalized(modifiers, key),
        resolve(bindings, normalized(modifiers, key).modifiers, again) == resolve(
            bindings,
            modifiers,
            key,
        ),
{
}

/// A capital with given modifiers and its small letter with shift and the
/// same modifiers resolve to the same action, whatever is bound.
pub proof fn lemma_shift_equivalence(
    bindings: Map<KeyBinding, Action>,
    modifiers: Modifiers,
    small: Key,
    capital: Key,
)
    requires
        !small.upper,
        capital.upper,
        capital.lower == small.code,
    ensures
        resolve(bindings, modifiers.spec_with_shift(), small) == resolve(
            bindings,
            modifiers,
            capital,
        ),
{
}

/// The last binding wins: after binding a key twice, it resolves to the
/// second action.
pub proof fn lemma_last_binding_wins(
    bindings: Map<KeyBinding, Action>,
    modifiers: Modifiers,
    key: Key,
    first: Action,
    second: Action,
)
    ensures
        resolve(bind(bindings, modifiers, key, first), modifiers, key) == first,
        resolve(bind(bind(bindings, modifiers, key, first), modifiers, key, second), modifiers, key)
            == second,
{
}

/// Binding a key changes nothing for a key with another normal form.
pub proof fn lemma_binding_leaves_others(
    bindings: Map<KeyBinding, Action>,
    modifiers: Modifiers,
    key: Key,
    action: Action,
    other_modifiers: Modifiers,
    other_key: Key,
)
    requires
        normalized(other_modifiers, other_key) != normalized(modifiers, key),
    ensures
        resolve(bind(bindings, modifiers, key, action), other_modifiers, other_key) == resolve(
            bindings,
            other_modifiers,
            other_key,
        ),
{
}

/// Why an entry of the configuration binds nothing.
#[derive(Clone, Debug)]
pub enum MappingError {
    /// The entry gives neither a character nor a name for its key.
    NoKey,
    /// The entry gives both a character and a name for its key.
    AmbiguousKey,
    /// The entry names a modifier that is none of control, shift and alt.
    UnknownModifier(String),
}

/// A `MappingError` as a value of specifications.
pub enum MappingFault {
    /// Neither a character nor a name.
    NoKey,
    /// Both a character and a name.
    AmbiguousKey,
    /// The unknown modifier name.
    UnknownModifier(Seq<char>),
}

impl View for MappingError {
    type V = MappingFault;

    open spec fn view(&self) -> MappingFault {
        match self {
            MappingError::NoKey => MappingFault::NoKey,
            MappingError::AmbiguousKey => MappingFault::AmbiguousKey,
            MappingError::UnknownModifier(name) => MappingFault::UnknownModifier(name@),
        }
    }
}

impl MappingError {
    /// The text of the error's message.
    pub open spec fn message_text(fault: MappingFault) -> Seq<char> {
        match fault {
            MappingFault::NoKey => "No `key_char` or `key_name` given"@,
            MappingFault::AmbiguousKey => "Both `key_char` and `key_name` given"@,
            MappingFault::UnknownModifier(name) => "Unknown modifier: "@ + name,
        }
    }

    /// The error in words.
    pub fn message(&self) -> (text: String)
        ensures
            text@ == Self::message_text(self@),
    {
        match self {
            MappingError::NoKey => String::from_str("No `key_char` or `key_name` given"),
            MappingError::AmbiguousKey => String::from_str("Both `key_char` and `key_name` given"),
            MappingError::UnknownModifier(name) => joined("Unknown modifier: ", name.as_str()),
        }
    }
}

/// An entry of the configuration that was not applied.
#[derive(Clone, Debug)]
pub struct RejectedMapping {
    /// The entry's place in the list, counted from 0.
    pub index: usize,
    /// Why it was not applied.
    pub reason: MappingError,
}

/// The modifier that a name of the configuration stands for.
pub open spec fn modifier_named(name: Seq<char>) -> Option<Modifiers> {
    if name == "control"@ {
        Some(Modifiers { control: true, shift: false, alt: false })
    } else if name == "shift"@ {
        Some(Modifiers { control: false, shift: true, alt: false })
    } else if name == "alt"@ {
        Some(Modifiers { control: false, shift: false, alt: true })
    } else {
        None
    }
}

/// The modifiers that a list of names stands for, or the first name in it that
/// names no modifier.
pub open spec fn modifiers_named(names: Seq<String>) -> Result<Modifiers, Seq<char>>
    decreases names.len(),
{
    if names.len() == 0 {
        Ok(Modifiers { control: false, shift: false, alt: false })
    } else {
        match modifiers_named(names.drop_last()) {
            Err(name) => Err(name),
            Ok(modifiers) => match modifier_named(names.last()@) {
                Some(modifier) => Ok(modifiers.spec_union(modifier)),
                None => Err(names.last()@),
            },
        }
    }
}

/// What an entry of the configuration binds, or why it binds nothing. The
/// modifiers are read first, then the key.
pub open spec fn entry_binding(entry: MappingDefinition) -> Result<KeyBinding, MappingFault> {
    match modifiers_named(entry.modifiers@) {
        Err(name) => Err(MappingFault::UnknownModifier(name)),
        Ok(modifiers) => match (entry.key_char, entry.key_name) {
            (Some(key), None) => Ok(normalized(modifiers, key)),
            (None, Some(key)) => Ok(normalized(modifiers, key)),
            (Some(_), Some(_)) => Err(MappingFault::AmbiguousKey),
            (None, None) => Err(MappingFault::NoKey),
        },
    }
}

/// `bindings` after applying the entries that bind something, in their order.
pub open spec fn with_entries(
    bindings: Map<KeyBinding, Action>,
    entries: Seq<MappingDefinition>,
) -> Map<KeyBinding, Action>
    decreases entries.len(),
{
    if entries.len() == 0 {
        bindings
    } else {
        let before = with_entries(bindings, entries.drop_last());
        match entry_binding(entries.last()) {
            Ok(binding) => before.insert(binding, entries.last().action),
            Err(_) => before,
        }
    }
}

/// The entries that bind nothing, in their order: the place of each and why.
pub open spec fn rejected_entries(entries: Seq<MappingDefinition>) -> Seq<(int, MappingFault)>
    decreases entries.len(),
{
    if entries.len() == 0 {
        Seq::empty()
    } else {
        let before = rejected_entries(entries.drop_last());
        match entry_binding(entries.last()) {
            Ok(_) => before,
            Err(fault) => before.push((entries.len() - 1, fault)),
        }
    }
}

/// What a list of rejected entries says, as a value of specifications.
pub open spec fn rejections(rejected: Seq<RejectedMapping>) -> Seq<(int, MappingFault)> {
    Seq::new(rejected.len(), |i: int| (rejected[i].index as int, rejected[i].reason@))
}

fn parse_modifier(name: &str) -> (modifier: Option<Modifiers>)
    ensures
        modifier == modifier_named(name@),
{
    if same_text(name, "control") {
        Some(Modifiers::control())
    } else if same_text(name, "shift") {
        Some(Modifiers::shift())
    } else if same_text(name, "alt") {
        Some(Modifiers::alt())
    } else {
        None
    }
}

fn parse_modifiers(names: &Vec<String>) -> (parsed: Result<Modifiers, String>)
    ensures
        match parsed {
            Ok(modifiers) => modifiers_named(names@) == Ok::<Modifiers, Seq<char>>(modifiers),
            Err(name) => modifiers_named(names@) == Err::<Modifiers, Seq<char>>(name@),
        },
{
    let mut modifiers = Modifiers::empty();
    let mut i: usize = 0;
    while i < names.len()
        invariant
            i <= names.len(),
            modifiers_named(names@.take(i as int)) == Ok::<Modifiers, Seq<char>>(modifiers),
        decreases names.len() - i,
    {
        proof {
            assert(names@.take(i + 1).drop_last() =~= names@.take(i as int));
        }
        match parse_modifier(names[i].as_str()) {
            Some(modifier) => {
                modifiers = modifiers.union(modifier);
            },
            None => {
                proof {
                    lemma_unknown_modifier_stays(names@, i + 1);
                }
                return Err(names[i].clone());
            },
        }
        i = i + 1;
    }
    proof {
        assert(names@.take(i as int) =~= names@);
    }
    Ok(modifiers)
}

proof fn lemma_unknown_modifier_stays(names: Seq<String>, n: int)
    requires
        0 <= n <= names.len(),
        modifiers_named(names.take(n)) is Err,
    ensures
        modifiers_named(names) == modifiers_named(names.take(n)),
    decreases names.len() - n,
{
    if n == names.len() {
        assert(names.take(n) =~= names);
    } else {
        assert(names.take(n + 1).drop_last() =~= names.take(n));
        lemma_unknown_modifier_stays(names, n + 1);
    }
}

fn parse_entry(entry: &MappingDefinition) -> (parsed: Result<KeyBinding, MappingError>)
    ensures
        match parsed {
            Ok(binding) => entry_binding(*entry) == Ok::<KeyBinding, MappingFault>(binding),
            Err(error) => entry_binding(*entry) == Err::<KeyBinding, MappingFault>(error@),
        },
{
    let modifiers = match parse_modifiers(&entry.modifiers) {
        Ok(modifiers) => modifiers,
        Err(name) => {
            return Err(MappingError::UnknownModifier(name));
        },
    };
    match (entry.key_char, entry.key_name) {
        (Some(key), None) => Ok(Keymaps::normalize_input(key, modifiers)),
        (None, Some(key)) => Ok(Keymaps::normalize_input(key, modifiers)),
        (Some(_), Some(_)) => Err(MappingError::AmbiguousKey),
        (None, None) => Err(MappingError::NoKey),
    }
}

impl Keymaps {
    /// Applies the entries of the configuration in their order, so that a
    /// later entry wins over an earlier one and over a default. An entry that
    /// names an unknown modifier, or gives no key, or gives its key twice, is
    /// left out and reported; the others are applied all the same.
    pub fn add_config_mappings(&mut self, mappings: &Vec<MappingDefinition>) -> (outcome: Result<
        (),
        Vec<RejectedMapping>,
    >)
        ensures
            final(self)@ == with_entries(old(self)@, mappings@),
            outcome is Ok <==> rejected_entries(mappings@).len() == 0,
            outcome matches Err(rejected) ==> rejections(rejected@) == rejected_entries(mappings@),
    {
        let mut rejected: Vec<RejectedMapping> = Vec::new();
        let mut i: usize = 0;
        while i < mappings.len()
            invariant
                i <= mappings.len(),
                self@ == with_entries(old(self)@, mappings@.take(i as int)),
                rejections(rejected@) == rejected_entries(mappings@.take(i as int)),
            decreases mappings.len() - i,
        {
            proof {
                assert(mappings@.take(i + 1).drop_last() =~= mappings@.take(i as int));
            }
            let ghost before = rejections(rejected@);
            match parse_entry(&mappings[i]) {
                Ok(binding) => {
                    self.insert(binding, mappings[i].action);
                },
                Err(reason) => {
                    rejected.push(RejectedMapping { index: i, reason });
                    proof {
                        assert(rejections(rejected@) =~= before.push((i as int, reason@)));
                    }
                },
            }
            i = i + 1;
        }
        proof {
            assert(mappings@.take(i as int) =~= mappings@);
        }
        if rejected.len() == 0 {
            Ok(())
        } else {
            Err(rejected)
        }
    }
}

} // verus!
