//! Keys, and how the answer of the keyboard layout becomes a key.

use vstd::prelude::*;

verus! {

/// The answer with which the keyboard layout says that no key produces the
/// character it was asked about: both of its bytes hold minus one.
pub const NO_KEY: i16 = -1;

/// A keyboard key / button.
#[derive(Debug, Hash, Clone, Copy, PartialEq, Eq, PartialOrd, Ord, Structural)]
pub struct Key(
    /// The key's virtual key code.
    pub u32,
);

impl Key {
    /// The UTF-16 code unit that the keyboard layout is asked about for a
    /// character: the low sixteen bits of its scalar value.
    pub open spec fn spec_layout_unit(c: char) -> u16 {
        (c as u32 % 0x1_0000) as u16
    }

    /// The key that an answer of the keyboard layout names: none where the
    /// answer says that there is none, and otherwise the low-order byte of
    /// the answer. The high-order byte, the shift state, is not part of a
    /// key.
    pub open spec fn spec_from_layout_scan(scan: i16) -> Option<Key> {
        if scan == NO_KEY {
            None
        } else {
            Some(Key((scan as int % 256) as u32))
        }
    }

    /// The UTF-16 code unit to ask the keyboard layout about for `c`.
    #[verifier::when_used_as_spec(spec_layout_unit)]
    pub fn layout_unit(c: char) -> (r: u16)
        ensures
            r == Key::spec_layout_unit(c),
    {
        let scalar: u32 = c as u32;
        assert(scalar & 0xFFFF == scalar % 0x1_0000) by (bit_vector);
        (scalar & 0xFFFF) as u16
    }

    /// Reads the answer that the current keyboard layout gave when it was
    /// asked which key emits a character.
    ///
    /// The answer depends on the layout that is active when the question is
    /// put, so it is to be asked for at the time the hotkey is registered
    /// and not kept across a change of layout.
    #[verifier::when_used_as_spec(spec_from_layout_scan)]
    pub fn from_layout_scan(scan: i16) -> (r: Option<Key>)
        ensures
            r == Key::spec_from_layout_scan(scan),
    {
        if scan == NO_KEY {
            None
        } else {
            let low: i16 = scan & 0x00FF;
            assert(0 <= low < 256 && low as int == scan as int % 256) by (bit_vector)
                requires
                    low == scan & 0x00FF,
            ;
            Some(Key(low as u32))
        }
    }

    /// No key is read from the one answer that says so, and from it alone.
    /// A key read from any other answer is a byte, and the shift state has
    /// no part in it: two such answers with the same low-order byte name
    /// the same key.
    pub proof fn lemma_scanned_key_is_a_byte(scan: i16, other: i16)
        ensures
            Key::from_layout_scan(scan) is None <==> scan == -1,
            Key::from_layout_scan(scan) matches Some(key) ==> key.0 <= 0xFF && key.0 == scan as int
                % 256,
            scan != -1 && other != -1 && scan as int % 256 == other as int % 256
                ==> Key::from_layout_scan(scan) == Key::from_layout_scan(other),
    {
    }
}

impl Default for Key {
    /// The key with code zero.
    fn default() -> (r: Key)
        ensures
            r == Key(0),
    {
        Key(0)
    }
}

} // verus!
