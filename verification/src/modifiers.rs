//! The modifier set of a hotkey: a bit set in the encoding that the
//! registration service of the platform expects.

use vstd::prelude::*;

verus! {

/// Bit of the <kbd>ALT</kbd> modifier.
pub const ALT_BIT: u32 = 0x0001;

/// Bit of the <kbd>CTRL</kbd> modifier.
pub const CONTROL_BIT: u32 = 0x0002;

/// Bit of the <kbd>SHIFT</kbd> modifier.
pub const SHIFT_BIT: u32 = 0x0004;

/// Bit of the <kbd>WINDOWS</kbd> modifier.
pub const WIN_BIT: u32 = 0x0008;

/// Bit of the behavioural flag that keeps keyboard auto-repeat from yielding
/// more than one notification while the key is held down.
pub const NO_REPEAT_BIT: u32 = 0x4000;

/// Every bit that has a meaning in a modifier set.
pub const ALL_BITS: u32 = 0x400F;

/// Keyboard hotkey modifiers: a set over Alt, Control, Shift, Win and the
/// behavioural flag NoRepeat, held as the bit pattern that the registration
/// service takes.
#[derive(Debug, Hash, Clone, Copy, PartialEq, Eq, PartialOrd, Ord, Structural)]
pub struct Modifiers {
    /// The bit pattern: the union of the bits of the members.
    pub bits: u32,
}

impl Modifiers {
    /// Whether no bit without a meaning is set.
    pub open spec fn is_valid(self) -> bool {
        self.bits & !ALL_BITS == 0
    }

    /// Whether every member of `other` is a member of `self`.
    pub open spec fn spec_contains(self, other: Modifiers) -> bool {
        self.bits & other.bits == other.bits
    }

    /// The set of the members of either operand.
    pub open spec fn spec_union(self, other: Modifiers) -> Modifiers {
        Modifiers { bits: self.bits | other.bits }
    }

    /// The set with the one member of the given bit where the switch is on,
    /// and the empty set where it is off.
    pub open spec fn switched(on: bool, bit: u32) -> Modifiers {
        Modifiers { bits: if on { bit } else { 0 } }
    }

    /// The set that four switches select: the union of the modifiers whose
    /// switch is on, together with NoRepeat, which is always a member.
    pub open spec fn of_switches(ctrl: bool, shift: bool, windows: bool, alt: bool) -> Modifiers {
        Modifiers::switched(true, NO_REPEAT_BIT).union(
            Modifiers::switched(ctrl, CONTROL_BIT),
        ).union(Modifiers::switched(shift, SHIFT_BIT)).union(
            Modifiers::switched(windows, WIN_BIT),
        ).union(Modifiers::switched(alt, ALT_BIT))
    }

    /// The empty set.
    pub fn empty() -> (r: Modifiers)
        ensures
            r == (Modifiers { bits: 0 }),
    {
        Modifiers { bits: 0 }
    }

    /// Either <kbd>ALT</kbd> key must be held down.
    pub fn alt() -> (r: Modifiers)
        ensures
            r == (Modifiers { bits: ALT_BIT }),
    {
        Modifiers { bits: ALT_BIT }
    }

    /// Either <kbd>CTRL</kbd> key must be held down.
    pub fn control() -> (r: Modifiers)
        ensures
            r == (Modifiers { bits: CONTROL_BIT }),
    {
        Modifiers { bits: CONTROL_BIT }
    }

    /// Either <kbd>SHIFT</kbd> key must be held down.
    pub fn shift() -> (r: Modifiers)
        ensures
            r == (Modifiers { bits: SHIFT_BIT }),
    {
        Modifiers { bits: SHIFT_BIT }
    }

    /// Either <kbd>WINDOWS</kbd> key must be held down.
    pub fn win() -> (r: Modifiers)
        ensures
            r == (Modifiers { bits: WIN_BIT }),
    {
        Modifiers { bits: WIN_BIT }
    }

    /// Keyboard auto-repeat does not yield more than one notification.
    ///
    /// A capability of the platform rather than a key: platforms that
    /// predate it refuse a registration that carries it.
    pub fn no_repeat() -> (r: Modifiers)
        ensures
            r == (Modifiers { bits: NO_REPEAT_BIT }),
    {
        Modifiers { bits: NO_REPEAT_BIT }
    }

    /// The bit pattern, as the registration service takes it.
    pub fn bits(self) -> (r: u32)
        ensures
            r == self.bits,
    {
        self.bits
    }

    /// The set with the given bit pattern, unless a bit without a meaning is
    /// set in it.
    pub fn from_bits(bits: u32) -> (r: Option<Modifiers>)
        ensures
            r == if bits & !ALL_BITS == 0 {
                Some(Modifiers { bits })
            } else {
                None
            },
    {
        if bits & !ALL_BITS == 0 {
            Some(Modifiers { bits })
        } else {
            None
        }
    }

    /// Whether the set has no member.
    pub fn is_empty(self) -> (r: bool)
        ensures
            r == (self.bits == 0),
    {
        self.bits == 0
    }

    /// Whether every member of `other` is a member of `self`.
    #[verifier::when_used_as_spec(spec_contains)]
    pub fn contains(self, other: Modifiers) -> (r: bool)
        ensures
            r == self.spec_contains(other),
    {
        self.bits & other.bits == other.bits
    }

    /// The set of the members of either operand.
    #[verifier::when_used_as_spec(spec_union)]
    pub fn union(self, other: Modifiers) -> (r: Modifiers)
        ensures
            r == self.spec_union(other),
    {
        Modifiers { bits: self.bits | other.bits }
    }

    /// Adds the members of `other`.
    pub fn insert(&mut self, other: Modifiers)
        ensures
            *final(self) == old(self).spec_union(other),
    {
        self.bits = self.bits | other.bits;
    }

    /// Union is commutative: the order of the operands does not matter.
    pub proof fn lemma_union_commutative(a: Modifiers, b: Modifiers)
        ensures
            a.union(b) == b.union(a),
    {
        let (x, y) = (a.bits, b.bits);
        assert(x | y == y | x) by (bit_vector);
    }

    /// Union is associative: the grouping of the operands does not matter.
    pub proof fn lemma_union_associative(a: Modifiers, b: Modifiers, c: Modifiers)
        ensures
            a.union(b).union(c) == a.union(b.union(c)),
    {
        let (x, y, z) = (a.bits, b.bits, c.bits);
        assert((x | y) | z == x | (y | z)) by (bit_vector);
    }

    /// Union is idempotent, and the empty set is its identity.
    pub proof fn lemma_union_idempotent(a: Modifiers)
        ensures
            a.union(a) == a,
            a.union(Modifiers { bits: 0 }) == a,
            (Modifiers { bits: 0 }).union(a) == a,
    {
        let x = a.bits;
        assert(x | x == x) by (bit_vector);
        assert(x | 0 == x) by (bit_vector);
        assert(0 | x == x) by (bit_vector);
    }

    /// A union holds both operands, and whatever holds both operands holds
    /// the union: it is the least upper bound.
    pub proof fn lemma_union_least_upper_bound(a: Modifiers, b: Modifiers, c: Modifiers)
        ensures
            a.union(b).contains(a),
            a.union(b).contains(b),
            c.contains(a) && c.contains(b) ==> c.contains(a.union(b)),
            a.is_valid() && b.is_valid() ==> a.union(b).is_valid(),
    {
        let (x, y, z) = (a.bits, b.bits, c.bits);
        assert((x | y) & x == x) by (bit_vector);
        assert((x | y) & y == y) by (bit_vector);
        assert(z & x == x && z & y == y ==> z & (x | y) == (x | y)) by (bit_vector);
        assert(x & !0x400Fu32 == 0 && y & !0x400Fu32 == 0 ==> (x | y) & !0x400Fu32 == 0)
            by (bit_vector);
    }

    /// What the four switches select: each switch decides on the membership
    /// of its own modifier and of no other, NoRepeat is always a member, and
    /// no bit without a meaning is set. The bits of distinct modifiers do
    /// not overlap, so the bit pattern is their sum. The order in which the
    /// selected modifiers are united does not matter.
    pub proof fn lemma_of_switches(ctrl: bool, shift: bool, windows: bool, alt: bool)
        ensures
            ({
                let selected = Modifiers::of_switches(ctrl, shift, windows, alt);
                &&& selected.bits == NO_REPEAT_BIT + Modifiers::switched(ctrl, CONTROL_BIT).bits
                    + Modifiers::switched(shift, SHIFT_BIT).bits + Modifiers::switched(
                    windows,
                    WIN_BIT,
                ).bits + Modifiers::switched(alt, ALT_BIT).bits
                &&& selected.is_valid()
                &&& selected.contains(Modifiers { bits: NO_REPEAT_BIT })
                &&& selected.contains(Modifiers { bits: CONTROL_BIT }) == ctrl
                &&& selected.contains(Modifiers { bits: SHIFT_BIT }) == shift
                &&& selected.contains(Modifiers { bits: WIN_BIT }) == windows
                &&& selected.contains(Modifiers { bits: ALT_BIT }) == alt
                &&& selected == Modifiers::switched(alt, ALT_BIT).union(
                    Modifiers::switched(windows, WIN_BIT),
                ).union(Modifiers::switched(shift, SHIFT_BIT)).union(
                    Modifiers::switched(ctrl, CONTROL_BIT),
                ).union(Modifiers::switched(true, NO_REPEAT_BIT))
            }),
    {
        let c = Modifiers::switched(ctrl, CONTROL_BIT).bits;
        let s = Modifiers::switched(shift, SHIFT_BIT).bits;
        let w = Modifiers::switched(windows, WIN_BIT).bits;
        let a = Modifiers::switched(alt, ALT_BIT).bits;
        assert(Modifiers::of_switches(ctrl, shift, windows, alt).bits == 0x4000u32 | c | s | w | a);
        assert((c == 0 || c == 2) && (s == 0 || s == 4) && (w == 0 || w == 8) && (a == 0 || a == 1)
            ==> {
            &&& (0x4000u32 | c | s | w | a) == 0x4000u32 + c + s + w + a
            &&& (0x4000u32 | c | s | w | a) & !0x400Fu32 == 0
            &&& (0x4000u32 | c | s | w | a) & 0x4000u32 == 0x4000u32
            &&& ((0x4000u32 | c | s | w | a) & 2u32 == 2u32) == (c == 2)
            &&& ((0x4000u32 | c | s | w | a) & 4u32 == 4u32) == (s == 4)
            &&& ((0x4000u32 | c | s | w | a) & 8u32 == 8u32) == (w == 8)
            &&& ((0x4000u32 | c | s | w | a) & 1u32 == 1u32) == (a == 1)
            &&& (0x4000u32 | c | s | w | a) == (a | w | s | c | 0x4000u32)
        }) by (bit_vector);
    }
}

impl core::ops::BitOr for Modifiers {
    type Output = Modifiers;

    /// The set of the members of either operand.
    fn bitor(self, rhs: Modifiers) -> (r: Modifiers) {
        self.union(rhs)
    }
}

impl vstd::std_specs::ops::BitOrSpecImpl for Modifiers {
    open spec fn obeys_bitor_spec() -> bool {
        true
    }

    open spec fn bitor_req(self, rhs: Modifiers) -> bool {
        true
    }

    open spec fn bitor_spec(self, rhs: Modifiers) -> Modifiers {
        self.spec_union(rhs)
    }
}

impl Default for Modifiers {
    /// The empty set.
    fn default() -> (r: Modifiers)
        ensures
            r == (Modifiers { bits: 0 }),
    {
        Modifiers { bits: 0 }
    }
}

} // verus!
