//! Capability sets: one raw integer, queried bit by bit.
//!
//! Each family knows a few bits. Decoding keeps those and silently drops
//! every other bit, and each query is computed from the kept integer, so
//! that a query can never drift from the bits it is read from.

use vstd::prelude::*;

verus! {

/// Display flag: the object should be shown to the end user.
pub const VISIBLE: i32 = 0x1;

/// Display flag: the object is only used internally.
pub const INTERNAL: i32 = 0x2;

/// Display flag: the object cannot be deleted.
pub const DONT_DELETE: i32 = 0x8;

/// All display flags.
pub const DEVICE_FLAGS_ALL: i32 = 0xB;

/// Receive mode: the device is permanently on receive.
pub const RX_ALWAYS: i32 = 0x1;

/// Receive mode: the device operates in wake on radio mode.
pub const RX_BURST: i32 = 0x2;

/// Receive mode: the device can be reached after its configuration key was pressed.
pub const RX_CONFIG: i32 = 0x4;

/// Receive mode: the device can be woken up after it has talked to the control unit.
pub const RX_WAKEUP: i32 = 0x8;

/// Receive mode: the device can be configured after a normal operation.
pub const RX_LAZY_CONFIG: i32 = 0x10;

/// All receive modes.
pub const RX_MODE_ALL: i32 = 0x1F;

/// Delete flag: the device is reset to its factory state before deletion.
pub const DELETE_RESET: i32 = 0x1;

/// Delete flag: the device is deleted even if it cannot be reached.
pub const DELETE_FORCE: i32 = 0x2;

/// Delete flag: a device that cannot be reached is deleted at the next opportunity.
pub const DELETE_DEFER: i32 = 0x4;

/// All delete flags.
pub const DELETE_FLAGS_ALL: i32 = 0x7;

/// The bits of `raw` that are among the `known` ones.
pub open spec fn keep(raw: i32, known: i32) -> i32 {
    raw & known
}

/// Whether every bit of `flag` is set in `bits`.
pub open spec fn is_set(bits: i32, flag: i32) -> bool {
    bits & flag == flag
}

/// Whether display flags decoded from `raw` say that the object is visible.
pub open spec fn visible(raw: i32) -> bool {
    is_set(keep(raw, DEVICE_FLAGS_ALL), VISIBLE)
}

/// Whether display flags decoded from `raw` say that the object is internal.
pub open spec fn internal(raw: i32) -> bool {
    is_set(keep(raw, DEVICE_FLAGS_ALL), INTERNAL)
}

/// Whether display flags decoded from `raw` say that the object can be deleted.
pub open spec fn deletable(raw: i32) -> bool {
    !is_set(keep(raw, DEVICE_FLAGS_ALL), DONT_DELETE)
}

/// Decoding display flags is stable: each query depends on its own bit of
/// the raw integer and on no other bit.
pub proof fn lemma_display_flags(raw: i32)
    ensures
        visible(raw) == (raw & 1 != 0),
        internal(raw) == (raw & 2 != 0),
        deletable(raw) == (raw & 8 == 0),
{
    assert(((raw & 0xB) & 0x1 == 0x1) == (raw & 1 != 0)) by (bit_vector);
    assert(((raw & 0xB) & 0x2 == 0x2) == (raw & 2 != 0)) by (bit_vector);
    assert(((raw & 0xB) & 0x8 == 0x8) == !(raw & 8 == 0)) by (bit_vector);
}

/// Bits that a family does not know have no effect on what is decoded.
pub proof fn lemma_unknown_bits_ignored(raw: i32, other: i32, known: i32)
    requires
        other & known == 0,
    ensures
        keep(raw | other, known) == keep(raw, known),
{
    assert((raw | other) & known == raw & known) by (bit_vector)
        requires
            other & known == 0,
    ;
}

/// A known flag is set in what was decoded exactly if it is set in the raw integer.
pub proof fn lemma_known_flag_kept(raw: i32, flag: i32, known: i32)
    requires
        flag & known == flag,
    ensures
        is_set(keep(raw, known), flag) == is_set(raw, flag),
{
    assert(((raw & known) & flag == flag) == (raw & flag == flag)) by (bit_vector)
        requires
            flag & known == flag,
    ;
}

/// Receive modes decoded from a raw integer depend on their own bit alone.
pub proof fn lemma_rx_mode_flags(raw: i32)
    ensures
        is_set(keep(raw, RX_MODE_ALL), RX_ALWAYS) == (raw & 0x1 != 0),
        is_set(keep(raw, RX_MODE_ALL), RX_BURST) == (raw & 0x2 != 0),
        is_set(keep(raw, RX_MODE_ALL), RX_CONFIG) == (raw & 0x4 != 0),
        is_set(keep(raw, RX_MODE_ALL), RX_WAKEUP) == (raw & 0x8 != 0),
        is_set(keep(raw, RX_MODE_ALL), RX_LAZY_CONFIG) == (raw & 0x10 != 0),
{
    assert(((raw & 0x1F) & 0x1 == 0x1) == (raw & 0x1 != 0)) by (bit_vector);
    assert(((raw & 0x1F) & 0x2 == 0x2) == (raw & 0x2 != 0)) by (bit_vector);
    assert(((raw & 0x1F) & 0x4 == 0x4) == (raw & 0x4 != 0)) by (bit_vector);
    assert(((raw & 0x1F) & 0x8 == 0x8) == (raw & 0x8 != 0)) by (bit_vector);
    assert(((raw & 0x1F) & 0x10 == 0x10) == (raw & 0x10 != 0)) by (bit_vector);
}

/// Display flags of a device or channel.
#[derive(Clone, Copy, Debug)]
pub struct DeviceFlags {
    bits: i32,
}

impl View for DeviceFlags {
    type V = i32;

    /// The bits that are kept.
    closed spec fn view(&self) -> i32 {
        self.bits
    }
}

impl DeviceFlags {
    #[verifier::type_invariant]
    spec fn only_known_bits(self) -> bool {
        self.bits & DEVICE_FLAGS_ALL == self.bits
    }

    /// Keeps the display flags of `raw` and drops all other bits.
    pub fn from_bits_truncate(raw: i32) -> (flags: DeviceFlags)
        ensures
            flags@ == keep(raw, DEVICE_FLAGS_ALL),
    {
        assert((raw & 0xB) & 0xB == raw & 0xB) by (bit_vector);
        DeviceFlags { bits: raw & DEVICE_FLAGS_ALL }
    }

    /// The kept bits; there is none among them that the family does not know.
    pub fn bits(&self) -> (bits: i32)
        ensures
            bits == self@,
            keep(bits, DEVICE_FLAGS_ALL) == bits,
    {
        proof {
            use_type_invariant(self);
        }
        self.bits
    }

    /// Whether every bit of `flag` is set.
    pub fn contains(&self, flag: i32) -> (set: bool)
        ensures
            set == is_set(self@, flag),
    {
        self.bits & flag == flag
    }
}

/// Receive modes of a device.
#[derive(Clone, Copy, Debug)]
pub struct RxMode {
    bits: i32,
}

impl View for RxMode {
    type V = i32;

    /// The bits that are kept.
    closed spec fn view(&self) -> i32 {
        self.bits
    }
}

impl RxMode {
    #[verifier::type_invariant]
    spec fn only_known_bits(self) -> bool {
        self.bits & RX_MODE_ALL == self.bits
    }

    /// Keeps the receive modes of `raw` and drops all other bits.
    pub fn from_bits_truncate(raw: i32) -> (mode: RxMode)
        ensures
            mode@ == keep(raw, RX_MODE_ALL),
    {
        assert((raw & 0x1F) & 0x1F == raw & 0x1F) by (bit_vector);
        RxMode { bits: raw & RX_MODE_ALL }
    }

    /// The kept bits; there is none among them that the family does not know.
    pub fn bits(&self) -> (bits: i32)
        ensures
            bits == self@,
            keep(bits, RX_MODE_ALL) == bits,
    {
        proof {
            use_type_invariant(self);
        }
        self.bits
    }

    /// The device is permanently on receive.
    pub fn always(&self) -> (set: bool)
        ensures
            set == is_set(self@, RX_ALWAYS),
    {
        self.bits & RX_ALWAYS == RX_ALWAYS
    }

    /// The device operates in wake on radio mode.
    pub fn burst(&self) -> (set: bool)
        ensures
            set == is_set(self@, RX_BURST),
    {
        self.bits & RX_BURST == RX_BURST
    }

    /// The device can be reached after its configuration key was pressed.
    pub fn config(&self) -> (set: bool)
        ensures
            set == is_set(self@, RX_CONFIG),
    {
        self.bits & RX_CONFIG == RX_CONFIG
    }

    /// The device can be woken up after it has talked to the control unit.
    pub fn wakeup(&self) -> (set: bool)
        ensures
            set == is_set(self@, RX_WAKEUP),
    {
        self.bits & RX_WAKEUP == RX_WAKEUP
    }

    /// The device can be configured after a normal operation, such as a
    /// keystroke on a remote control.
    pub fn lazy_config(&self) -> (set: bool)
        ensures
            set == is_set(self@, RX_LAZY_CONFIG),
    {
        self.bits & RX_LAZY_CONFIG == RX_LAZY_CONFIG
    }
}

/// What a delete request sets for the three options.
pub open spec fn delete_bits(reset: bool, force: bool, defer: bool) -> i32 {
    let reset_bit = if reset { DELETE_RESET } else { 0i32 };
    let force_bit = if force { DELETE_FORCE } else { 0i32 };
    let defer_bit = if defer { DELETE_DEFER } else { 0i32 };
    reset_bit | force_bit | defer_bit
}

/// Options of a delete request. They are only ever sent, never decoded from
/// an answer.
#[derive(Clone, Copy, Debug)]
pub struct DeviceDeleteFlags {
    bits: i32,
}

impl View for DeviceDeleteFlags {
    type V = i32;

    /// The bits that are set.
    closed spec fn view(&self) -> i32 {
        self.bits
    }
}

impl DeviceDeleteFlags {
    #[verifier::type_invariant]
    spec fn only_known_bits(self) -> bool {
        self.bits & DELETE_FLAGS_ALL == self.bits
    }

    /// No option.
    pub fn empty() -> (flags: DeviceDeleteFlags)
        ensures
            flags@ == 0,
    {
        assert(0i32 & 0x7 == 0i32) by (bit_vector);
        DeviceDeleteFlags { bits: 0 }
    }

    /// The option to reset the device to its factory state before deletion.
    pub fn reset() -> (flags: DeviceDeleteFlags)
        ensures
            flags@ == DELETE_RESET,
    {
        assert(0x1i32 & 0x7 == 0x1i32) by (bit_vector);
        DeviceDeleteFlags { bits: DELETE_RESET }
    }

    /// The option to delete the device even if it cannot be reached.
    pub fn force() -> (flags: DeviceDeleteFlags)
        ensures
            flags@ == DELETE_FORCE,
    {
        assert(0x2i32 & 0x7 == 0x2i32) by (bit_vector);
        DeviceDeleteFlags { bits: DELETE_FORCE }
    }

    /// The option to delete a device that cannot be reached at the next
    /// opportunity.
    pub fn defer() -> (flags: DeviceDeleteFlags)
        ensures
            flags@ == DELETE_DEFER,
    {
        assert(0x4i32 & 0x7 == 0x4i32) by (bit_vector);
        DeviceDeleteFlags { bits: DELETE_DEFER }
    }

    /// The options that are chosen, each by its own bit.
    pub fn new(reset: bool, force: bool, defer: bool) -> (flags: DeviceDeleteFlags)
        ensures
            flags@ == delete_bits(reset, force, defer),
            is_set(flags@, DELETE_RESET) == reset,
            is_set(flags@, DELETE_FORCE) == force,
            is_set(flags@, DELETE_DEFER) == defer,
    {
        let a: i32 = if reset { DELETE_RESET } else { 0 };
        let b: i32 = if force { DELETE_FORCE } else { 0 };
        let c: i32 = if defer { DELETE_DEFER } else { 0 };
        assert({
            let all = a | b | c;
            &&& all & 0x7 == all
            &&& (all & 0x1 == 0x1) == (a == 0x1)
            &&& (all & 0x2 == 0x2) == (b == 0x2)
            &&& (all & 0x4 == 0x4) == (c == 0x4)
        }) by (bit_vector)
            requires
                a == 0x1 || a == 0,
                b == 0x2 || b == 0,
                c == 0x4 || c == 0,
        ;
        DeviceDeleteFlags { bits: a | b | c }
    }

    /// Keeps the delete flags of `raw` and drops all other bits.
    pub fn from_bits_truncate(raw: i32) -> (flags: DeviceDeleteFlags)
        ensures
            flags@ == keep(raw, DELETE_FLAGS_ALL),
    {
        assert((raw & 0x7) & 0x7 == raw & 0x7) by (bit_vector);
        DeviceDeleteFlags { bits: raw & DELETE_FLAGS_ALL }
    }

    /// The options of both.
    pub fn union(self, other: DeviceDeleteFlags) -> (flags: DeviceDeleteFlags)
        ensures
            flags@ == self@ | other@,
    {
        proof {
            use_type_invariant(self);
            use_type_invariant(other);
        }
        let a = self.bits;
        let b = other.bits;
        assert((a | b) & 0x7 == (a | b)) by (bit_vector)
            requires
                a & 0x7 == a,
                b & 0x7 == b,
        ;
        DeviceDeleteFlags { bits: a | b }
    }

    /// Whether every option of `other` is chosen.
    pub fn contains(&self, other: DeviceDeleteFlags) -> (set: bool)
        ensures
            set == is_set(self@, other@),
    {
        self.bits & other.bits == other.bits
    }

    /// The integer that goes on the wire; it has no bit but those of the
    /// three options.
    pub fn bits(&self) -> (bits: i32)
        ensures
            bits == self@,
            keep(bits, DELETE_FLAGS_ALL) == bits,
    {
        proof {
            use_type_invariant(self);
        }
        self.bits
    }
}

} // verus!
