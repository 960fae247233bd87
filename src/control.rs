//! The 8-bit controller register and the commands that drive it.
use vstd::prelude::*;

verus! {

/// A controller button that the user can hold or release.
#[derive(Clone, Copy, Debug, PartialEq, Eq, Structural)]
pub enum Button {
    A,
    B,
    Up,
    Down,
    Left,
    Right,
}

/// The bit of the start button in the controller byte.
pub const START_BIT: u8 = 3;

/// Bit position of a button in the controller byte, as the emulated
/// hardware reads it.
pub open spec fn bit_of(b: Button) -> u8 {
    match b {
        Button::A => 0,
        Button::B => 1,
        Button::Up => 4,
        Button::Down => 5,
        Button::Left => 6,
        Button::Right => 7,
    }
}

/// The one-bit mask of a button.
pub open spec fn mask_of(b: Button) -> u8 {
    (1u8 << bit_of(b)) as u8
}

/// The controller byte after flipping one button.
pub open spec fn toggled(state: u8, b: Button) -> u8 {
    state ^ mask_of(b)
}

/// Whether a button's bit is set in a controller byte.
pub open spec fn is_held(state: u8, bit: u8) -> bool {
    state & ((1u8 << bit) as u8) != 0
}

/// The controller byte after flipping each button of `bs` in turn.
pub open spec fn after_toggles(state: u8, bs: Seq<Button>) -> u8
    decreases bs.len(),
{
    if bs.len() == 0 {
        state
    } else {
        toggled(after_toggles(state, bs.drop_last()), bs.last())
    }
}

/// The XOR of the masks of all buttons in `bs`.
pub open spec fn xor_fold(bs: Seq<Button>) -> u8
    decreases bs.len(),
{
    if bs.len() == 0 {
        0
    } else {
        xor_fold(bs.drop_last()) ^ mask_of(bs.last())
    }
}

impl Button {
    /// Bit position of this button in the controller byte.
    pub fn bit(self) -> (r: u8)
        ensures
            r == bit_of(self),
            r < 8,
    {
        match self {
            Button::A => 0,
            Button::B => 1,
            Button::Up => 4,
            Button::Down => 5,
            Button::Left => 6,
            Button::Right => 7,
        }
    }

    /// The one-bit mask of this button.
    pub fn mask(self) -> (r: u8)
        ensures
            r == mask_of(self),
    {
        1u8 << self.bit()
    }
}

/// What a UI token asks for.
#[derive(Clone, Copy, Debug, PartialEq, Eq, Structural)]
pub enum Command {
    /// Flip one button of the controller byte.
    Toggle(Button),
    /// Run the game forward until the player has control again.
    Next,
    /// Restart the game and run it to the first playable moment.
    Reset,
}

/// The command that a token names, if any.
pub open spec fn command_of(token: Seq<char>) -> Option<Command> {
    if token == "a"@ {
        Some(Command::Toggle(Button::A))
    } else if token == "b"@ {
        Some(Command::Toggle(Button::B))
    } else if token == "up"@ {
        Some(Command::Toggle(Button::Up))
    } else if token == "down"@ {
        Some(Command::Toggle(Button::Down))
    } else if token == "left"@ {
        Some(Command::Toggle(Button::Left))
    } else if token == "right"@ {
        Some(Command::Toggle(Button::Right))
    } else if token == "next"@ {
        Some(Command::Next)
    } else if token == "reset"@ {
        Some(Command::Reset)
    } else {
        None
    }
}

/// Decodes a UI token into a command; unknown tokens give `None`.
pub fn parse_command(token: &str) -> (r: Option<Command>)
    ensures
        r == command_of(token@),
{
    let t = token.to_owned();
    if t == "a".to_owned() {
        Some(Command::Toggle(Button::A))
    } else if t == "b".to_owned() {
        Some(Command::Toggle(Button::B))
    } else if t == "up".to_owned() {
        Some(Command::Toggle(Button::Up))
    } else if t == "down".to_owned() {
        Some(Command::Toggle(Button::Down))
    } else if t == "left".to_owned() {
        Some(Command::Toggle(Button::Left))
    } else if t == "right".to_owned() {
        Some(Command::Toggle(Button::Right))
    } else if t == "next".to_owned() {
        Some(Command::Next)
    } else if t == "reset".to_owned() {
        Some(Command::Reset)
    } else {
        None
    }
}

/// The controller byte: bit `i` set means the button at bit `i` is held.
#[derive(Clone, Copy, Debug, PartialEq, Eq, Structural)]
pub struct ControlState {
    pub bits: u8,
}

impl ControlState {
    /// A controller with no button held.
    pub fn new() -> (r: ControlState)
        ensures
            r.bits == 0,
    {
        ControlState { bits: 0 }
    }

    /// The current controller byte.
    pub fn load(&self) -> (r: u8)
        ensures
            r == self.bits,
    {
        self.bits
    }

    /// Overwrites the controller byte.
    pub fn store(&mut self, value: u8)
        ensures
            final(self).bits == value,
    {
        self.bits = value;
    }

    /// Flips one button and returns the new controller byte.
    pub fn toggle(&mut self, b: Button) -> (r: u8)
        ensures
            final(self).bits == toggled(old(self).bits, b),
            r == final(self).bits,
    {
        self.bits = self.bits ^ b.mask();
        self.bits
    }

    /// Whether the button at `bit` is held.
    pub fn held(&self, bit: u8) -> (r: bool)
        requires
            bit < 8,
        ensures
            r == is_held(self.bits, bit),
    {
        self.bits & (1u8 << bit) != 0
    }
}

/// Flipping a sequence of buttons one after the other leaves the controller
/// byte equal to the starting byte XORed with every flipped button's mask,
/// in arrival order; from an empty controller it is the XOR-fold itself.
pub proof fn lemma_toggles_fold(state: u8, bs: Seq<Button>)
    ensures
        after_toggles(state, bs) == state ^ xor_fold(bs),
        after_toggles(0, bs) == xor_fold(bs),
    decreases bs.len(),
{
    if bs.len() > 0 {
        lemma_toggles_fold(state, bs.drop_last());
        lemma_toggles_fold(0, bs.drop_last());
        let prev = after_toggles(state, bs.drop_last());
        let prev0 = after_toggles(0, bs.drop_last());
        let f = xor_fold(bs.drop_last());
        let m = mask_of(bs.last());
        assert((state ^ f) ^ m == state ^ (f ^ m)) by (bit_vector);
        assert((0u8 ^ f) ^ m == f ^ m) by (bit_vector);
    } else {
        assert(state ^ 0u8 == state) by (bit_vector);
        assert(0u8 ^ 0u8 == 0u8) by (bit_vector);
    }
}

/// Flipping the same button twice in a row restores the controller byte.
pub proof fn lemma_toggle_twice(state: u8, b: Button)
    ensures
        toggled(toggled(state, b), b) == state,
{
    let m = mask_of(b);
    assert((state ^ m) ^ m == state) by (bit_vector);
}

} // verus!
