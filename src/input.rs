use vstd::prelude::*;

use core::marker::PhantomData;

verus! {

/// Inputs that return a continuous range of values.
/// The neutral/default value returned is 0.0.
#[derive(Copy, Clone, Debug, Hash, Default, PartialEq, Eq, Structural)]
pub struct Analog;

/// Inputs that return either `true` or `false`.
/// The neutral/default value returned is `false`.
#[derive(Copy, Clone, Debug, Hash, Default, PartialEq, Eq, Structural)]
pub struct Digital;

/// Prevents other crates from adding kinds of input.
pub trait Sealed {}

/// Identifies a certain kind of input: [`Analog`] or [`Digital`].
pub trait InputKind: Sealed + Sized {}

impl Sealed for Analog {}

impl Sealed for Digital {}

impl InputKind for Analog {}

impl InputKind for Digital {}

/// Identifies an action that has been bound for user input.
#[derive(Debug, PartialEq, Eq, PartialOrd, Ord, Hash)]
pub struct ActionId<I: InputKind>(u64, PhantomData<I>);

impl<I: InputKind> Clone for ActionId<I> {
    fn clone(&self) -> (r: ActionId<I>)
        ensures
            r.raw() == self.raw(),
    {
        ActionId(self.0, PhantomData)
    }
}

impl<I: InputKind> Copy for ActionId<I> {}

impl<I: InputKind> ActionId<I> {
    /// The raw handle.
    pub closed spec fn raw(self) -> u64 {
        self.0
    }

    /// Wraps a raw handle.
    pub fn from_raw(value: u64) -> (r: ActionId<I>)
        ensures
            r.raw() == value,
    {
        ActionId(value, PhantomData)
    }

    /// Gets the raw handle.
    pub fn as_raw(self) -> (r: u64)
        ensures
            r == self.raw(),
    {
        self.0
    }
}

/// Identifies the type of a system across plugins: its name and version.
/// Two types are the same when all four parts agree.
#[derive(Clone, Debug, PartialEq, Eq, Hash)]
pub struct SystemType {
    /// The name of the type.
    pub name: String,
    /// The major version.
    pub major: u32,
    /// The minor version.
    pub minor: u32,
    /// The patch version.
    pub patch: u32,
}

impl SystemType {
    /// What identifies the type.
    pub open spec fn key(self) -> (Seq<char>, u32, u32, u32) {
        (self.name@, self.major, self.minor, self.patch)
    }

    /// Creates a type descriptor from its name and version.
    pub fn new(name: &str, major: u32, minor: u32, patch: u32) -> (r: SystemType)
        ensures
            r.name@ == name@,
            r.major == major,
            r.minor == minor,
            r.patch == patch,
    {
        SystemType { name: name.to_string(), major, minor, patch }
    }

    /// Whether the two descriptors name the same type.
    pub fn same(&self, other: &SystemType) -> (r: bool)
        ensures
            r == (self.key() == other.key()),
    {
        self.name == other.name && self.major == other.major && self.minor == other.minor && self.patch
            == other.patch
    }
}

/// Identifies an action by its name and source system.
#[derive(Clone, Debug, PartialEq, Eq, Hash)]
pub struct ActionName {
    /// The name associated with the action.
    pub name: String,
    /// The system defining this action.
    pub system: SystemType,
}

impl ActionName {
    /// What identifies the action: its name and its system.
    pub open spec fn key(self) -> (Seq<char>, (Seq<char>, u32, u32, u32)) {
        (self.name@, self.system.key())
    }

    /// Creates a new action name associated with the given system.
    pub fn new(name: &str, system: SystemType) -> (r: ActionName)
        ensures
            r.name@ == name@,
            r.system == system,
    {
        ActionName { name: name.to_string(), system }
    }
}

/// Identifies an action and describes its default parameters.
#[derive(Clone, Debug, PartialEq, Eq, Hash)]
pub struct ActionDescriptor<B> {
    /// A description of the action, to be displayed to the user.
    pub description: String,
    /// A list of default bindings. The first one that exists when this action
    /// is created will automatically be bound to it.
    pub default_bindings: Vec<B>,
    /// The name of the action.
    pub name: ActionName,
}

impl<B> ActionDescriptor<B> {
    /// Creates a new descriptor for the named action.
    pub fn new(name: ActionName, description: String, default_bindings: Vec<B>) -> (r: ActionDescriptor<B>)
        ensures
            r.name == name,
            r.description == description,
            r.default_bindings == default_bindings,
    {
        ActionDescriptor { default_bindings, description, name }
    }
}

/// Whether no two of `actions` share a name.
pub open spec fn names_unique<B>(actions: Seq<ActionDescriptor<B>>) -> bool {
    forall|i: int, j: int|
        0 <= i < j < actions.len() ==> #[trigger] actions[i].name.key() != #[trigger] actions[j].name.key()
}

/// Whether `actions` holds an action named like `name`.
pub open spec fn is_defined<B>(actions: Seq<ActionDescriptor<B>>, name: ActionName) -> bool {
    exists|i: int| 0 <= i < actions.len() && #[trigger] actions[i].name.key() == name.key()
}

/// What defining `d` on the actions `before` does: an action of the same name
/// keeps its handle and its descriptor; otherwise `d` is appended and its
/// handle is its position.
pub open spec fn defines<B>(
    before: Seq<ActionDescriptor<B>>,
    d: ActionDescriptor<B>,
    after: Seq<ActionDescriptor<B>>,
    id: u64,
) -> bool {
    if is_defined(before, d.name) {
        &&& after == before
        &&& id < before.len()
        &&& before[id as int].name.key() == d.name.key()
    } else {
        &&& after == before.push(d)
        &&& id == before.len()
    }
}

/// The actions registered for one kind of input, each identified by its
/// position. Registration is idempotent: a second request for the same name
/// returns the first handle, and the first descriptor's bindings stay.
pub struct ActionRegistry<B> {
    actions: Vec<ActionDescriptor<B>>,
}

impl<B> View for ActionRegistry<B> {
    type V = Seq<ActionDescriptor<B>>;

    /// The registered actions, in order of registration.
    closed spec fn view(&self) -> Seq<ActionDescriptor<B>> {
        self.actions@
    }
}

impl<B> ActionRegistry<B> {
    /// No two registered actions share a name.
    pub open spec fn wf(self) -> bool {
        names_unique(self@)
    }

    /// Creates a registry with no actions.
    pub fn new() -> (r: ActionRegistry<B>)
        ensures
            r.wf(),
            r@ == Seq::<ActionDescriptor<B>>::empty(),
    {
        ActionRegistry { actions: Vec::new() }
    }

    /// The number of registered actions.
    pub fn len(&self) -> (r: usize)
        ensures
            r == self@.len(),
    {
        self.actions.len()
    }

    /// Gets a handle referencing the given action, registering the action if
    /// it did not exist.
    pub fn define(&mut self, descriptor: ActionDescriptor<B>) -> (r: u64)
        requires
            old(self).wf(),
            old(self)@.len() < u64::MAX,
        ensures
            final(self).wf(),
            defines(old(self)@, descriptor, final(self)@, r),
    {
        let mut i: usize = 0;
        while i < self.actions.len()
            invariant
                0 <= i <= self.actions@.len(),
                self@ == old(self)@,
                names_unique(self@),
                forall|k: int| 0 <= k < i ==> #[trigger] self.actions@[k].name.key() != descriptor.name.key(),
            decreases self.actions@.len() - i,
        {
            let a = &self.actions[i];
            if a.name.name == descriptor.name.name && a.name.system.same(&descriptor.name.system) {
                assert(self@[i as int].name.key() == descriptor.name.key());
                return i as u64;
            }
            i = i + 1;
        }
        let id = self.actions.len() as u64;
        let ghost before = self@;
        self.actions.push(descriptor);
        assert(names_unique(self@)) by {
            assert forall|i: int, j: int| 0 <= i < j < self@.len() implies #[trigger] self@[i].name.key()
                != #[trigger] self@[j].name.key() by {
                if j == before.len() {
                    assert(self@[i] == before[i]);
                }
            }
        }
        id
    }

    /// Gets the descriptor of the action with the given handle, if there is one.
    pub fn get(&self, id: u64) -> (r: Option<&ActionDescriptor<B>>)
        ensures
            id < self@.len() ==> r == Some(&self@[id as int]),
            id >= self@.len() ==> r is None,
    {
        if id < self.actions.len() as u64 {
            Some(&self.actions[id as usize])
        } else {
            None
        }
    }
}

/// Defining an action whose name is already defined returns the same handle
/// and changes nothing: registering a name twice yields one action.
pub proof fn lemma_define_idempotent<B>(
    s0: Seq<ActionDescriptor<B>>,
    d1: ActionDescriptor<B>,
    s1: Seq<ActionDescriptor<B>>,
    id1: u64,
    d2: ActionDescriptor<B>,
    s2: Seq<ActionDescriptor<B>>,
    id2: u64,
)
    requires
        names_unique(s0),
        defines(s0, d1, s1, id1),
        defines(s1, d2, s2, id2),
        d1.name.key() == d2.name.key(),
    ensures
        id2 == id1,
        s2 == s1,
        s1.len() <= s0.len() + 1,
        id1 < s1.len(),
        !is_defined(s0, d1.name) ==> s2[id1 as int] == d1,
{
    assert(s1[id1 as int].name.key() == d1.name.key());
    assert(is_defined(s1, d2.name));
    assert(names_unique(s1)) by {
        if !is_defined(s0, d1.name) {
            assert forall|i: int, j: int| 0 <= i < j < s1.len() implies #[trigger] s1[i].name.key()
                != #[trigger] s1[j].name.key() by {
                if j == s0.len() {
                    assert(s1[i] == s0[i]);
                }
            }
        }
    }
}

/// Describes the current state of a digital action.
#[derive(Copy, Clone, Debug, PartialEq, Eq, PartialOrd, Ord, Hash, Structural)]
pub struct DigitalResult {
    /// Whether the button is currently pressed.
    pub held: bool,
    /// Whether the button was held last frame but not this frame.
    pub released: bool,
    /// Whether the button was held this frame but not last frame.
    pub pressed: bool,
}

impl DigitalResult {
    /// The state of a digital action that is held `now` and was held `before`.
    pub open spec fn of_states(now: bool, before: bool) -> DigitalResult {
        DigitalResult { held: now, released: !now && before, pressed: now && !before }
    }

    /// The neutral state: not held, pressed or released.
    pub open spec fn neutral() -> DigitalResult {
        DigitalResult { held: false, released: false, pressed: false }
    }

    /// The state of a digital action that is held `now` and was held `before`,
    /// on the previous tick.
    pub fn from_states(now: bool, before: bool) -> (r: DigitalResult)
        ensures
            r == DigitalResult::of_states(now, before),
            r.held == now,
            r.pressed == (now && !before),
            r.released == (!now && before),
    {
        DigitalResult { held: now, released: !now && before, pressed: now && !before }
    }
}

impl Default for DigitalResult {
    /// The neutral state: not held, pressed or released.
    fn default() -> (r: DigitalResult)
        ensures
            r == DigitalResult::neutral(),
    {
        DigitalResult { held: false, released: false, pressed: false }
    }
}

/// A digital action with no input this tick nor the last is neutral: not
/// held, pressed or released.
pub proof fn lemma_no_input_is_neutral()
    ensures
        DigitalResult::of_states(false, false) == DigitalResult::neutral(),
{
}

/// Determines how a raw user input will affect an analog action.
#[derive(Copy, Clone, Debug, PartialEq, Eq, PartialOrd, Ord, Hash, Structural)]
pub struct AnalogBinding {
    /// Whether the input should be multiplied by `-1.0` before being returned.
    pub invert: bool,
    /// The raw input to read.
    pub raw_input: RawInput,
}

/// Identifies a source to which an action may be bound.
#[derive(Copy, Clone, Debug, PartialEq, Eq, PartialOrd, Ord, Hash, Structural)]
pub enum RawInput {
    /// The input refers to an axis on a gamepad.
    GamepadAxis(GamepadAxis),
    /// The input refers to a button on a gamepad.
    GamepadButton(GamepadButton),
    /// The input refers to a button on a keyboard.
    Key(Key),
    /// The input refers to a button a mouse.
    MouseButton(MouseButton),
}

/// Identifies a continuous axis on a gamepad, returning a value on the range `[-1.0, 1.0]`.
/// Follows the [gilrs standard layout](https://docs.rs/gilrs/latest/gilrs/).
#[derive(Copy, Clone, Debug, PartialEq, Eq, PartialOrd, Ord, Hash, Structural)]
pub enum GamepadAxis {
    /// The horizontal axis of the left stick.
    LeftStickX,
    /// The vertical axis of the left stick.
    LeftStickY,
    /// The left Z-stick.
    LeftZ,
    /// The horizontal axis of the right stick.
    RightStickX,
    /// The vertical axis of the right stick.
    RightStickY,
    /// The right Z-stick.
    RightZ,
    /// The horizontal axis of the D-pad.
    DPadX,
    /// The vertical axis of the D-pad.
    DPadY,
}

/// Denotes a key on a user's keyboard.
#[derive(Copy, Clone, Debug, PartialEq, Eq, PartialOrd, Ord, Hash, Structural)]
pub enum Key {
    /// The `A` key.
    A,
    /// The `B` key.
    B,
    /// The `C` key.
    C,
    /// The `D` key.
    D,
    /// The `E` key.
    E,
    /// The `F` key.
    F,
    /// The `G` key.
    G,
    /// The `H` key.
    H,
    /// The `I` key.
    I,
    /// The `J` key.
    J,
    /// The `K` key.
    K,
    /// The `L` key.
    L,
    /// The `M` key.
    M,
    /// The `N` key.
    N,
    /// The `O` key.
    O,
    /// The `P` key.
    P,
    /// The `Q` key.
    Q,
    /// The `R` key.
    R,
    /// The `S` key.
    S,
    /// The `T` key.
    T,
    /// The `U` key.
    U,
    /// The `V` key.
    V,
    /// The `W` key.
    W,
    /// The `X` key.
    X,
    /// The `Y` key.
    Y,
    /// The `Z` key.
    Z,
    /// The `esc` key.
    Escape,
    /// The `F1` key.
    F1,
    /// The `F2` key.
    F2,
    /// The `F3` key.
    F3,
    /// The `F4` key.
    F4,
    /// The `F5` key.
    F5,
    /// The `F6` key.
    F6,
    /// The `F7` key.
    F7,
    /// The `F8` key.
    F8,
    /// The `F9` key.
    F9,
    /// The `F10` key.
    F10,
    /// The `F11` key.
    F11,
    /// The `F12` key.
    F12,
    /// The `F13` key.
    F13,
    /// The `F14` key.
    F14,
    /// The `F15` key.
    F15,
    /// The `F16` key.
    F16,
    /// The `F17` key.
    F17,
    /// The `F18` key.
    F18,
    /// The `F19` key.
    F19,
    /// The `F20` key.
    F20,
    /// The `F21` key.
    F21,
    /// The `F22` key.
    F22,
    /// The `F23` key.
    F23,
    /// The `F24` key.
    F24,
    /// The `1` key.
    Key1,
    /// The `2` key.
    Key2,
    /// The `3` key.
    Key3,
    /// The `4` key.
    Key4,
    /// The `5` key.
    Key5,
    /// The `6` key.
    Key6,
    /// The `7` key.
    Key7,
    /// The `8` key.
    Key8,
    /// The `9` key.
    Key9,
    /// The `0` key.
    Key0,
    /// The `numlock` key.
    Numlock,
    /// The `0` key on the numpad.
    Numpad0,
    /// The `1` key on the numpad.
    Numpad1,
    /// The `2` key on the numpad.
    Numpad2,
    /// The `3` key on the numpad.
    Numpad3,
    /// The `4` key on the numpad.
    Numpad4,
    /// The `5` key on the numpad.
    Numpad5,
    /// The `6` key on the numpad.
    Numpad6,
    /// The `7` key on the numpad.
    Numpad7,
    /// The `8` key on the numpad.
    Numpad8,
    /// The `9` key on the numpad.
    Numpad9,
    /// The `+` key on the numpad.
    NumpadPlus,
    /// The `-` key on the numpad.
    NumpadMinus,
    /// The `*` key on the numpad.
    NumpadAsterisk,
    /// The `/` key on the numpad.
    NumpadSlash,
    /// The `.` key on the numpad.
    NumpadDecimal,
    /// The `enter` key on the numpad.
    NumpadEnter,
    /// The `snapshot` key.
    Snapshot,
    /// The `scroll lock` key.
    ScrollLock,
    /// The `pause` key.
    Pause,
    /// The `insert` key.
    Insert,
    /// The `home` key.
    Home,
    /// The `delete` key.
    Delete,
    /// The `end` key.
    End,
    /// The `page up` key.
    PageUp,
    /// The `page down` key.
    PageDown,
    /// The `left` arrow key.
    Left,
    /// The `right` arrow key.
    Right,
    /// The `up` arrow key.
    Up,
    /// The `down` arrow key.
    Down,
    /// The `grave` key.
    Grave,
    /// The `back` key.
    Back,
    /// The `tab` key.
    Tab,
    /// The `caps` key.
    CapitalLock,
    /// The `return` key.
    Return,
    /// The `space` key.
    Space,
    /// The left `alt` key.
    LAlt,
    /// The right `alt` key.
    RAlt,
    /// The left `shift` key.
    LShift,
    /// The right `shift` key.
    RShift,
    /// The left `ctrl` key.
    LControl,
    /// The right `ctrl` key.
    RControl,
    /// The left `windows` or `command` key.
    LWin,
    /// The right `windows` or `command` key.
    RWin,
    /// The `-` key.
    Minus,
    /// The `=` key.
    Equals,
    /// The `[` key.
    LBracket,
    /// The `]` key.
    RBracket,
    /// The `\` key.
    Backslash,
    /// The `;` key.
    Semicolon,
    /// The `'` key.
    Apostrophe,
    /// The `,` key.
    Comma,
    /// The `.` key.
    Period,
    /// The `/` key.
    Slash,
}

/// Identifies a button on a controller, following the [gilrs standard layout](https://docs.rs/gilrs/latest/gilrs/).
#[derive(Copy, Clone, Debug, PartialEq, Eq, PartialOrd, Ord, Hash, Structural)]
pub enum GamepadButton {
    /// The bottom button on the action pad.
    South,
    /// The right button on the action pad.
    East,
    /// The north button on the action pad.
    North,
    /// The west button on the action pad.
    West,
    /// The C-button.
    C,
    /// The Z-button.
    Z,
    /// The first left trigger.
    LeftTrigger,
    /// The second left trigger.
    LeftTrigger2,
    /// The first right trigger.
    RightTrigger,
    /// The second right trigger.
    RightTrigger2,
    /// The select button.
    Select,
    /// The start button.
    Start,
    /// The mode button.
    Mode,
    /// The left thumb button.
    LeftThumb,
    /// The right thumb button.
    RightThumb,
    /// The D-pad up button.
    DPadUp,
    /// The D-pad down button.
    DPadDown,
    /// The D-pad left button.
    DPadLeft,
    /// The D-pad right button.
    DPadRight,
}

/// Indicates a button on the user's mouse.
#[derive(Copy, Clone, Debug, PartialEq, Eq, PartialOrd, Ord, Hash, Structural)]
pub enum MouseButton {
    /// The left mouse button.
    Left,
    /// The center mouse button.
    Middle,
    /// The right mouse button.
    Right,
}

} // verus!
