use vstd::prelude::*;

verus! {

/// A navigation key or modifier that can be held down.
#[derive(Clone, Copy, Debug, PartialEq, Eq, Structural)]
pub enum HeldKey {
    MoveForward,
    MoveBackward,
    MoveRight,
    MoveLeft,
    MoveUp,
    MoveDown,
    PitchUp,
    PitchDown,
    YawRight,
    YawLeft,
    Shift,
    Control,
}

/// Position of a key's flag in a key set's bit pattern.
pub open spec fn key_index(k: HeldKey) -> u16 {
    match k {
        HeldKey::MoveForward => 0,
        HeldKey::MoveBackward => 1,
        HeldKey::MoveRight => 2,
        HeldKey::MoveLeft => 3,
        HeldKey::MoveUp => 4,
        HeldKey::MoveDown => 5,
        HeldKey::PitchUp => 6,
        HeldKey::PitchDown => 7,
        HeldKey::YawRight => 8,
        HeldKey::YawLeft => 9,
        HeldKey::Shift => 10,
        HeldKey::Control => 11,
    }
}

/// The keys whose flags are set in `bits`.
pub open spec fn keys_of_bits(bits: u16) -> Set<HeldKey> {
    Set::new(|k: HeldKey| bits & (1u16 << key_index(k)) != 0)
}

/// Signed magnitude of an axis: +1 when only `positive` is held, -1 when only
/// `negative` is, and 0 when both or neither are.
pub open spec fn axis(keys: Set<HeldKey>, positive: HeldKey, negative: HeldKey) -> int {
    (if keys.contains(positive) { 1int } else { 0int }) - (if keys.contains(negative) {
        1int
    } else {
        0int
    })
}

proof fn lemma_bit_update(x: u16, i: u16, j: u16)
    by (bit_vector)
    requires
        i < 16,
        j < 16,
    ensures
        ((x | (1u16 << i)) & (1u16 << j) != 0) == (i == j || x & (1u16 << j) != 0),
        ((x & !(1u16 << i)) & (1u16 << j) != 0) == (i != j && x & (1u16 << j) != 0),
        (0u16 & (1u16 << j)) == 0,
{
}

proof fn lemma_key_index_injective(a: HeldKey, b: HeldKey)
    ensures
        key_index(a) == key_index(b) <==> a == b,
{
}

pub(crate) fn key_bit(k: HeldKey) -> (r: u16)
    ensures
        r == 1u16 << key_index(k),
{
    let index: u16 = match k {
        HeldKey::MoveForward => 0,
        HeldKey::MoveBackward => 1,
        HeldKey::MoveRight => 2,
        HeldKey::MoveLeft => 3,
        HeldKey::MoveUp => 4,
        HeldKey::MoveDown => 5,
        HeldKey::PitchUp => 6,
        HeldKey::PitchDown => 7,
        HeldKey::YawRight => 8,
        HeldKey::YawLeft => 9,
        HeldKey::Shift => 10,
        HeldKey::Control => 11,
    };
    1u16 << index
}

pub(crate) fn bits_contain(bits: u16, k: HeldKey) -> (r: bool)
    ensures
        r == keys_of_bits(bits).contains(k),
{
    bits & key_bit(k) != 0
}

pub(crate) fn bits_set(bits: u16, k: HeldKey, pressed: bool) -> (r: u16)
    ensures
        keys_of_bits(r) == if pressed {
            keys_of_bits(bits).insert(k)
        } else {
            keys_of_bits(bits).remove(k)
        },
{
    let b = key_bit(k);
    let r = if pressed {
        bits | b
    } else {
        bits & !b
    };
    proof {
        assert forall|j: HeldKey| #[trigger] keys_of_bits(r).contains(j) == (if pressed {
            keys_of_bits(bits).insert(k)
        } else {
            keys_of_bits(bits).remove(k)
        }).contains(j) by {
            lemma_bit_update(bits, key_index(k), key_index(j));
            lemma_key_index_injective(k, j);
        }
        if pressed {
            assert(keys_of_bits(r) =~= keys_of_bits(bits).insert(k));
        } else {
            assert(keys_of_bits(r) =~= keys_of_bits(bits).remove(k));
        }
    }
    r
}

pub(crate) fn bits_axis(bits: u16, positive: HeldKey, negative: HeldKey) -> (r: i8)
    ensures
        r as int == axis(keys_of_bits(bits), positive, negative),
{
    let p: i8 = if bits_contain(bits, positive) {
        1
    } else {
        0
    };
    let n: i8 = if bits_contain(bits, negative) {
        1
    } else {
        0
    };
    p - n
}

pub(crate) proof fn lemma_no_bits_no_keys()
    ensures
        keys_of_bits(0) == Set::<HeldKey>::empty(),
{
    assert forall|j: HeldKey| !#[trigger] keys_of_bits(0).contains(j) by {
        lemma_bit_update(0, 0, key_index(j));
    }
    assert(keys_of_bits(0) =~= Set::<HeldKey>::empty());
}

/// The set of navigation keys and modifiers currently held down.
#[derive(Clone, Copy, Debug)]
pub struct HeldKeys {
    bits: u16,
}

impl View for HeldKeys {
    type V = Set<HeldKey>;

    closed spec fn view(&self) -> Set<HeldKey> {
        keys_of_bits(self.bits)
    }
}

impl HeldKeys {
    /// No key held.
    pub fn new() -> (r: Self)
        ensures
            r@ == Set::<HeldKey>::empty(),
    {
        proof {
            lemma_no_bits_no_keys();
        }
        HeldKeys { bits: 0 }
    }

    /// Whether `key` is held.
    pub fn contains(&self, key: HeldKey) -> (r: bool)
        ensures
            r == self@.contains(key),
    {
        bits_contain(self.bits, key)
    }

    /// Records that `key` was pressed or released; the other keys keep their state.
    pub fn set(&mut self, key: HeldKey, pressed: bool)
        ensures
            final(self)@ == if pressed {
                old(self)@.insert(key)
            } else {
                old(self)@.remove(key)
            },
    {
        self.bits = bits_set(self.bits, key, pressed);
    }

    pub fn is_shift_pressed(&self) -> (r: bool)
        ensures
            r == self@.contains(HeldKey::Shift),
    {
        self.contains(HeldKey::Shift)
    }

    pub fn is_control_pressed(&self) -> (r: bool)
        ensures
            r == self@.contains(HeldKey::Control),
    {
        self.contains(HeldKey::Control)
    }

    fn magnitude(&self, positive: HeldKey, negative: HeldKey) -> (r: i8)
        ensures
            r as int == axis(self@, positive, negative),
    {
        bits_axis(self.bits, positive, negative)
    }

    /// +1 forward, -1 backward, 0 for both or neither.
    pub fn forward_magnitude(&self) -> (r: i8)
        ensures
            r as int == axis(self@, HeldKey::MoveForward, HeldKey::MoveBackward),
    {
        self.magnitude(HeldKey::MoveForward, HeldKey::MoveBackward)
    }

    /// +1 right, -1 left, 0 for both or neither.
    pub fn right_magnitude(&self) -> (r: i8)
        ensures
            r as int == axis(self@, HeldKey::MoveRight, HeldKey::MoveLeft),
    {
        self.magnitude(HeldKey::MoveRight, HeldKey::MoveLeft)
    }

    /// +1 up, -1 down, 0 for both or neither.
    pub fn up_magnitude(&self) -> (r: i8)
        ensures
            r as int == axis(self@, HeldKey::MoveUp, HeldKey::MoveDown),
    {
        self.magnitude(HeldKey::MoveUp, HeldKey::MoveDown)
    }

    /// +1 when pitching down, -1 when pitching up, 0 for both or neither.
    pub fn pitch_magnitude(&self) -> (r: i8)
        ensures
            r as int == axis(self@, HeldKey::PitchDown, HeldKey::PitchUp),
    {
        self.magnitude(HeldKey::PitchDown, HeldKey::PitchUp)
    }

    /// +1 when yawing right, -1 when yawing left, 0 for both or neither.
    pub fn yaw_magnitude(&self) -> (r: i8)
        ensures
            r as int == axis(self@, HeldKey::YawRight, HeldKey::YawLeft),
    {
        self.magnitude(HeldKey::YawRight, HeldKey::YawLeft)
    }
}

impl Default for HeldKeys {
    fn default() -> (r: Self)
        ensures
            r@ == Set::<HeldKey>::empty(),
    {
        HeldKeys::new()
    }
}

} // verus!
