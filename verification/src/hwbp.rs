use vstd::prelude::*;

use crate::error::Error;
use crate::thread::{Thread, ThreadState};
use crate::util::ptrace::{dr_offset, Request};

verus! {

/// The condition on which a hardware breakpoint fires.
#[derive(Debug, Clone, Copy, PartialEq, Eq, Structural)]
pub enum HardwareBreakpointType {
    /// An instruction at the address is executed.
    Execute,
    /// The data at the address is read. x86 has no condition for reads
    /// alone: the kind is programmed with the condition bits `01`, and a
    /// watchpoint that is to fire on reads is registered as `Access`.
    Read,
    /// The data at the address is written.
    Write,
    /// The data at the address is read or written.
    Access,
}

impl HardwareBreakpointType {
    /// The two bits that stand for this kind in the R/W field of DR7.
    pub open spec fn condition(self) -> u8 {
        match self {
            HardwareBreakpointType::Execute => 0x00,
            HardwareBreakpointType::Read => 0x01,
            HardwareBreakpointType::Write => 0x01,
            HardwareBreakpointType::Access => 0x03,
        }
    }

    /// The kind that an R/W field of DR7 stands for: execute, write and
    /// access have one; `0b10` and anything above two bits have none.
    pub open spec fn of_condition(value: u8) -> Result<HardwareBreakpointType, Error> {
        if value == 0x00 {
            Ok(HardwareBreakpointType::Execute)
        } else if value == 0x01 {
            Ok(HardwareBreakpointType::Write)
        } else if value == 0x03 {
            Ok(HardwareBreakpointType::Access)
        } else {
            Err(Error::InvalidArgument)
        }
    }
}

impl From<HardwareBreakpointType> for u8 {
    fn from(value: HardwareBreakpointType) -> (code: u8) {
        match value {
            HardwareBreakpointType::Access => 0x03,
            HardwareBreakpointType::Write => 0x01,
            HardwareBreakpointType::Read => 0x01,
            HardwareBreakpointType::Execute => 0x00,
        }
    }
}

impl vstd::std_specs::convert::FromSpecImpl<HardwareBreakpointType> for u8 {
    open spec fn obeys_from_spec() -> bool {
        true
    }

    open spec fn from_spec(value: HardwareBreakpointType) -> u8 {
        value.condition()
    }
}

impl TryFrom<u8> for HardwareBreakpointType {
    type Error = Error;

    fn try_from(value: u8) -> (kind: Result<HardwareBreakpointType, Error>) {
        match value {
            0x03 => Ok(HardwareBreakpointType::Access),
            0x01 => Ok(HardwareBreakpointType::Write),
            0x00 => Ok(HardwareBreakpointType::Execute),
            _ => Err(Error::InvalidArgument),
        }
    }
}

impl vstd::std_specs::convert::TryFromSpecImpl<u8> for HardwareBreakpointType {
    open spec fn obeys_try_from_spec() -> bool {
        true
    }

    open spec fn try_from_spec(value: u8) -> Result<HardwareBreakpointType, Error> {
        HardwareBreakpointType::of_condition(value)
    }
}

/// Reading back the condition of a kind that x86 can express gives the kind.
pub proof fn lemma_condition_round_trip(kind: HardwareBreakpointType)
    requires
        kind != HardwareBreakpointType::Read,
    ensures
        HardwareBreakpointType::of_condition(kind.condition()) == Ok::<
            HardwareBreakpointType,
            Error,
        >(kind),
{
}

/// Number of debug-register slots: DR0 to DR3 hold one watched address each.
pub const SLOT_COUNT: usize = 4;

/// Tells whether `length` is a number of bytes that a debug register can
/// watch.
pub open spec fn valid_length(length: usize) -> bool {
    length == 1 || length == 2 || length == 4 || length == 8
}

/// The two bits that stand for a watched length in the LEN field of DR7:
/// one byte is `00`, two are `01`, four are `11` and eight are `10`.
pub open spec fn length_code(length: usize) -> u64 {
    if length == 1 {
        0b00
    } else if length == 2 {
        0b01
    } else if length == 4 {
        0b11
    } else {
        0b10
    }
}

/// The watched length that a LEN field of DR7 stands for.
pub open spec fn length_of_code(code: u64) -> usize {
    if code == 0b00 {
        1
    } else if code == 0b01 {
        2
    } else if code == 0b11 {
        4
    } else {
        8
    }
}

/// Position in DR7 of the local-enable bit of `slot`.
pub open spec fn enable_shift(slot: u64) -> u64 {
    (2 * slot) as u64
}

/// Position in DR7 of the two-bit R/W field of `slot`.
pub open spec fn condition_shift(slot: u64) -> u64 {
    (16 + 4 * slot) as u64
}

/// Position in DR7 of the two-bit LEN field of `slot`.
pub open spec fn length_shift(slot: u64) -> u64 {
    (18 + 4 * slot) as u64
}

/// The bits of DR7 that belong to `slot`: its local-enable bit, its R/W
/// field and its LEN field.
pub open spec fn slot_bits(slot: u64) -> u64 {
    (1u64 << enable_shift(slot)) | (3u64 << condition_shift(slot)) | (3u64 << length_shift(slot))
}

/// DR7 after `slot` is programmed: its local-enable bit is set, then its
/// R/W field is cleared and set to `condition`, then its LEN field is
/// cleared and set to `length`.
pub open spec fn dr7_enabled(dr7: u64, slot: u64, condition: u64, length: u64) -> u64 {
    let enabled = dr7 | (1u64 << enable_shift(slot));
    let conditioned = (enabled & !(3u64 << condition_shift(slot))) | (condition
        << condition_shift(slot));
    (conditioned & !(3u64 << length_shift(slot))) | (length << length_shift(slot))
}

/// DR7 after `slot` is switched off: its local-enable bit is cleared.
pub open spec fn dr7_disabled(dr7: u64, slot: u64) -> u64 {
    dr7 & !(1u64 << enable_shift(slot))
}

/// Tells whether the local-enable bit of `slot` is set in `dr7`.
pub open spec fn dr7_is_enabled(dr7: u64, slot: u64) -> bool {
    dr7 & (1u64 << enable_shift(slot)) != 0
}

/// The R/W field of `slot` in `dr7`.
pub open spec fn dr7_condition(dr7: u64, slot: u64) -> u64 {
    (dr7 >> condition_shift(slot)) & 3
}

/// The LEN field of `slot` in `dr7`.
pub open spec fn dr7_length(dr7: u64, slot: u64) -> u64 {
    (dr7 >> length_shift(slot)) & 3
}

/// Tells whether `dr6` reports that `slot` fired.
pub open spec fn dr6_hit(dr6: u64, slot: u64) -> bool {
    dr6 & (1u64 << slot) != 0
}

/// DR6 after the hit of `slot` is acknowledged: its bit is cleared.
pub open spec fn dr6_cleared(dr6: u64, slot: u64) -> u64 {
    dr6 & !(1u64 << slot)
}

/// The slots below `n` that `dr6` reports, in increasing order.
pub open spec fn hit_slots_below(dr6: u64, n: nat) -> Seq<usize>
    decreases n,
{
    if n == 0 {
        Seq::empty()
    } else if dr6_hit(dr6, (n - 1) as u64) {
        hit_slots_below(dr6, (n - 1) as nat).push((n - 1) as usize)
    } else {
        hit_slots_below(dr6, (n - 1) as nat)
    }
}

/// The slots that `dr6` reports, in increasing order.
pub open spec fn hit_slots(dr6: u64) -> Seq<usize> {
    hit_slots_below(dr6, 4)
}

/// A slot is among the reported ones exactly when its bit is set, and the
/// reported slots come in strictly increasing order.
pub proof fn lemma_hit_slots(dr6: u64, n: nat)
    requires
        n <= 4,
    ensures
        forall|slot: usize|
            hit_slots_below(dr6, n).contains(slot) <==> slot < n && dr6_hit(dr6, slot as u64),
        forall|i: int, j: int|
            0 <= i < j < hit_slots_below(dr6, n).len() ==> hit_slots_below(dr6, n)[i]
                < hit_slots_below(dr6, n)[j],
        forall|i: int|
            0 <= i < hit_slots_below(dr6, n).len() ==> (#[trigger] hit_slots_below(dr6, n)[i]) < n,
        hit_slots_below(dr6, n).len() <= n,
    decreases n,
{
    if n > 0 {
        let m = (n - 1) as nat;
        lemma_hit_slots(dr6, m);
        let rest = hit_slots_below(dr6, m);
        let all = hit_slots_below(dr6, n);
        if dr6_hit(dr6, m as u64) {
            assert(all == rest.push(m as usize));
            assert forall|slot: usize| all.contains(slot) <==> slot < n && dr6_hit(
                dr6,
                slot as u64,
            ) by {
                if all.contains(slot) {
                    let i = choose|i: int| 0 <= i < all.len() && all[i] == slot;
                    if i < rest.len() {
                        assert(rest.contains(slot));
                    }
                }
                if slot < n && dr6_hit(dr6, slot as u64) {
                    if slot == m {
                        assert(all[rest.len() as int] == slot);
                    } else {
                        assert(rest.contains(slot));
                        let i = choose|i: int| 0 <= i < rest.len() && rest[i] == slot;
                        assert(all[i] == slot);
                    }
                }
            }
        } else {
            assert(all == rest);
            assert forall|slot: usize| all.contains(slot) <==> slot < n && dr6_hit(
                dr6,
                slot as u64,
            ) by {
                if slot < n && dr6_hit(dr6, slot as u64) {
                    assert(slot != m);
                }
            }
        }
    }
}

/// One hardware breakpoint: an address to watch, the condition and the
/// number of bytes to watch it with, and the debug-register slot that holds
/// it.
///
/// The length is always 1, 2, 4 or 8 and the slot always one of 0 to 3.
#[derive(Debug, Clone, Copy, PartialEq, Eq)]
pub struct HardwareBreakpoint {
    address: u64,
    kind: HardwareBreakpointType,
    length: usize,
    dr: usize,
}

impl HardwareBreakpoint {
    #[verifier::type_invariant]
    spec fn valid(self) -> bool {
        valid_length(self.length) && self.dr < SLOT_COUNT
    }

    /// The watched address.
    pub closed spec fn spec_address(&self) -> u64 {
        self.address
    }

    /// The condition on which the breakpoint fires.
    pub closed spec fn spec_kind(&self) -> HardwareBreakpointType {
        self.kind
    }

    /// The number of watched bytes.
    pub closed spec fn spec_length(&self) -> usize {
        self.length
    }

    /// The debug-register slot that holds the breakpoint.
    pub closed spec fn spec_dr(&self) -> usize {
        self.dr
    }

    /// What every breakpoint that `new` hands out satisfies: a length of 1,
    /// 2, 4 or 8 and a slot below four.
    pub open spec fn wf(self) -> bool {
        valid_length(self.spec_length()) && self.spec_dr() < SLOT_COUNT
    }

    /// A breakpoint on `address` in slot `dr`. A length other than 1, 2, 4
    /// or 8 and a slot above 3 are refused.
    pub fn new(address: u64, kind: HardwareBreakpointType, length: usize, dr: usize) -> (r: Result<
        HardwareBreakpoint,
        Error,
    >)
        ensures
            valid_length(length) && dr < SLOT_COUNT ==> r is Ok,
            !(valid_length(length) && dr < SLOT_COUNT) ==> r == Err::<HardwareBreakpoint, Error>(
                Error::InvalidArgument,
            ),
            r matches Ok(bp) ==> bp.spec_address() == address && bp.spec_kind() == kind
                && bp.spec_length() == length && bp.spec_dr() == dr && bp.wf(),
    {
        if length != 1 && length != 2 && length != 4 && length != 8 {
            return Err(Error::InvalidArgument);
        }
        if dr >= SLOT_COUNT {
            return Err(Error::InvalidArgument);
        }
        Ok(HardwareBreakpoint { address, kind, length, dr })
    }

    /// The watched address.
    #[verifier::when_used_as_spec(spec_address)]
    pub fn address(&self) -> (address: u64)
        ensures
            address == self.spec_address(),
    {
        self.address
    }

    /// The condition on which the breakpoint fires.
    #[verifier::when_used_as_spec(spec_kind)]
    pub fn kind(&self) -> (kind: HardwareBreakpointType)
        ensures
            kind == self.spec_kind(),
    {
        self.kind
    }

    /// The number of watched bytes: 1, 2, 4 or 8.
    #[verifier::when_used_as_spec(spec_length)]
    pub fn length(&self) -> (length: usize)
        ensures
            length == self.spec_length(),
            valid_length(length),
    {
        proof {
            use_type_invariant(self);
        }
        self.length
    }

    /// The debug-register slot that holds the breakpoint: 0 to 3.
    #[verifier::when_used_as_spec(spec_dr)]
    pub fn dr(&self) -> (dr: usize)
        ensures
            dr == self.spec_dr(),
            dr < SLOT_COUNT,
    {
        proof {
            use_type_invariant(self);
        }
        self.dr
    }

    /// DR7 with this breakpoint programmed into it.
    pub open spec fn spec_enable(self, dr7: u64) -> u64 {
        dr7_enabled(
            dr7,
            self.spec_dr() as u64,
            self.spec_kind().condition() as u64,
            length_code(self.spec_length()),
        )
    }

    /// DR7 with this breakpoint switched off.
    pub open spec fn spec_disable(self, dr7: u64) -> u64 {
        dr7_disabled(dr7, self.spec_dr() as u64)
    }

    /// Programs the breakpoint into a value of DR7: sets the local-enable
    /// bit of its slot, then replaces the slot's R/W field by the condition
    /// and the slot's LEN field by the length. The bits of the other slots
    /// stay as they are.
    pub fn enable(&self, dr7: u64) -> (programmed: u64)
        ensures
            programmed == self.spec_enable(dr7),
    {
        proof {
            use_type_invariant(self);
        }
        let slot: u64 = self.dr as u64;
        let condition: u8 = self.kind.into();
        let length: u64 = match self.length {
            1 => 0b00,
            2 => 0b01,
            8 => 0b10,
            _ => 0b11,
        };
        let mut dr7 = dr7;
        dr7 |= 1u64 << (2 * slot);
        dr7 &= !(0b11u64 << (16 + 4 * slot));
        dr7 |= (condition as u64) << (16 + 4 * slot);
        dr7 &= !(0b11u64 << (18 + 4 * slot));
        dr7 |= length << (18 + 4 * slot);
        dr7
    }

    /// Switches the breakpoint off in a value of DR7: clears the
    /// local-enable bit of its slot and nothing else.
    pub fn disable(&self, dr7: u64) -> (cleared: u64)
        ensures
            cleared == self.spec_disable(dr7),
    {
        proof {
            use_type_invariant(self);
        }
        let slot: u64 = self.dr as u64;
        dr7 & !(1u64 << (2 * slot))
    }
}

/// Reads the local-enable bit of `slot` in a value of DR7. A slot above 3
/// is refused.
pub fn slot_enabled(dr7: u64, slot: usize) -> (r: Result<bool, Error>)
    ensures
        slot < SLOT_COUNT ==> r == Ok::<bool, Error>(dr7_is_enabled(dr7, slot as u64)),
        slot >= SLOT_COUNT ==> r == Err::<bool, Error>(Error::InvalidArgument),
{
    if slot >= SLOT_COUNT {
        return Err(Error::InvalidArgument);
    }
    let slot: u64 = slot as u64;
    Ok(dr7 & (1u64 << (2 * slot)) != 0)
}

/// Reads the kind that the R/W field of `slot` in a value of DR7 stands
/// for. The field `0b10` stands for none, and a slot above 3 is refused.
pub fn slot_kind(dr7: u64, slot: usize) -> (r: Result<HardwareBreakpointType, Error>)
    ensures
        slot < SLOT_COUNT ==> r == HardwareBreakpointType::of_condition(
            dr7_condition(dr7, slot as u64) as u8,
        ),
        slot >= SLOT_COUNT ==> r == Err::<HardwareBreakpointType, Error>(Error::InvalidArgument),
{
    if slot >= SLOT_COUNT {
        return Err(Error::InvalidArgument);
    }
    let slot: u64 = slot as u64;
    let field: u64 = (dr7 >> (16 + 4 * slot)) & 3;
    assert(field <= 3) by (bit_vector)
        requires
            field == (dr7 >> (16 + 4 * slot) as u64) & 3,
    ;
    HardwareBreakpointType::try_from(field as u8)
}

/// Reads the number of bytes that the LEN field of `slot` in a value of DR7
/// stands for. A slot above 3 is refused.
pub fn slot_length(dr7: u64, slot: usize) -> (r: Result<usize, Error>)
    ensures
        slot < SLOT_COUNT ==> r == Ok::<usize, Error>(
            length_of_code(dr7_length(dr7, slot as u64)),
        ),
        slot >= SLOT_COUNT ==> r == Err::<usize, Error>(Error::InvalidArgument),
        r matches Ok(length) ==> valid_length(length),
{
    if slot >= SLOT_COUNT {
        return Err(Error::InvalidArgument);
    }
    let slot: u64 = slot as u64;
    let field: u64 = (dr7 >> (18 + 4 * slot)) & 3;
    Ok(
        if field == 0b00 {
            1
        } else if field == 0b01 {
            2
        } else if field == 0b11 {
            4
        } else {
            8
        },
    )
}

/// Programming a slot and reading DR7 back gives what was put in: the slot
/// is enabled, its R/W field holds the condition and its LEN field the code
/// of the length. Every bit of DR7 that does not belong to the slot is as it
/// was.
pub proof fn lemma_enable_fields(dr7: u64, slot: usize, kind: HardwareBreakpointType, length: usize)
    requires
        slot < SLOT_COUNT,
        valid_length(length),
    ensures
        ({
            let programmed = dr7_enabled(
                dr7,
                slot as u64,
                kind.condition() as u64,
                length_code(length),
            );
            &&& dr7_is_enabled(programmed, slot as u64)
            &&& dr7_condition(programmed, slot as u64) == kind.condition()
            &&& dr7_length(programmed, slot as u64) == length_code(length)
            &&& length_of_code(dr7_length(programmed, slot as u64)) == length
            &&& programmed & !slot_bits(slot as u64) == dr7 & !slot_bits(slot as u64)
        }),
{
    let s = slot as u64;
    let c = kind.condition() as u64;
    let l = length_code(length);
    let programmed = dr7_enabled(dr7, s, c, l);
    assert(programmed == ((((dr7 | (1u64 << (2 * s) as u64)) & !(3u64 << (16 + 4 * s) as u64)) | (c
        << (16 + 4 * s) as u64)) & !(3u64 << (18 + 4 * s) as u64)) | (l << (18 + 4 * s) as u64));
    assert({
        let e = ((((dr7 | (1u64 << (2 * s) as u64)) & !(3u64 << (16 + 4 * s) as u64)) | (c << (16 + 4
            * s) as u64)) & !(3u64 << (18 + 4 * s) as u64)) | (l << (18 + 4 * s) as u64);
        let bits = (1u64 << (2 * s) as u64) | (3u64 << (16 + 4 * s) as u64) | (3u64 << (18 + 4
            * s) as u64);
        &&& e & (1u64 << (2 * s) as u64) != 0
        &&& (e >> (16 + 4 * s) as u64) & 3 == c
        &&& (e >> (18 + 4 * s) as u64) & 3 == l
        &&& e & !bits == dr7 & !bits
    }) by (bit_vector)
        requires
            s < 4,
            c <= 3,
            l <= 3,
    ;
}

/// Programming one of the kinds that x86 can express and reading DR7 back
/// gives the kind and the length that were put in.
pub proof fn lemma_enable_round_trip(
    dr7: u64,
    slot: usize,
    kind: HardwareBreakpointType,
    length: usize,
)
    requires
        slot < SLOT_COUNT,
        valid_length(length),
        kind == HardwareBreakpointType::Execute || kind == HardwareBreakpointType::Write || kind
            == HardwareBreakpointType::Access,
    ensures
        ({
            let programmed = dr7_enabled(
                dr7,
                slot as u64,
                kind.condition() as u64,
                length_code(length),
            );
            &&& dr7_is_enabled(programmed, slot as u64)
            &&& HardwareBreakpointType::of_condition(dr7_condition(programmed, slot as u64) as u8)
                == Ok::<HardwareBreakpointType, Error>(kind)
            &&& length_of_code(dr7_length(programmed, slot as u64)) == length
        }),
{
    lemma_enable_fields(dr7, slot, kind, length);
}

/// Programming a slot leaves the other slots as they are: their
/// local-enable bits, their R/W fields and their LEN fields read back as
/// before.
pub proof fn lemma_enable_keeps_other_slots(
    dr7: u64,
    slot: usize,
    other: usize,
    condition: u64,
    length: u64,
)
    requires
        slot < SLOT_COUNT,
        other < SLOT_COUNT,
        slot != other,
        condition <= 3,
        length <= 3,
    ensures
        ({
            let programmed = dr7_enabled(dr7, slot as u64, condition, length);
            &&& dr7_is_enabled(programmed, other as u64) == dr7_is_enabled(dr7, other as u64)
            &&& dr7_condition(programmed, other as u64) == dr7_condition(dr7, other as u64)
            &&& dr7_length(programmed, other as u64) == dr7_length(dr7, other as u64)
        }),
{
    let s = slot as u64;
    let o = other as u64;
    let c = condition;
    let l = length;
    assert({
        let e = ((((dr7 | (1u64 << (2 * s) as u64)) & !(3u64 << (16 + 4 * s) as u64)) | (c << (16 + 4
            * s) as u64)) & !(3u64 << (18 + 4 * s) as u64)) | (l << (18 + 4 * s) as u64);
        &&& (e & (1u64 << (2 * o) as u64) != 0) == (dr7 & (1u64 << (2 * o) as u64) != 0)
        &&& (e >> (16 + 4 * o) as u64) & 3 == (dr7 >> (16 + 4 * o) as u64) & 3
        &&& (e >> (18 + 4 * o) as u64) & 3 == (dr7 >> (18 + 4 * o) as u64) & 3
    }) by (bit_vector)
        requires
            s < 4,
            o < 4,
            s != o,
            c <= 3,
            l <= 3,
    ;
}

/// Switching a slot off clears its local-enable bit and leaves every other
/// bit of DR7 as it was, the slot's R/W and LEN fields among them.
pub proof fn lemma_disable_clears_only_enable(dr7: u64, slot: usize)
    requires
        slot < SLOT_COUNT,
    ensures
        ({
            let cleared = dr7_disabled(dr7, slot as u64);
            &&& !dr7_is_enabled(cleared, slot as u64)
            &&& cleared & !(1u64 << enable_shift(slot as u64)) == dr7 & !(1u64 << enable_shift(
                slot as u64,
            ))
            &&& cleared | (1u64 << enable_shift(slot as u64)) == dr7 | (1u64 << enable_shift(
                slot as u64,
            ))
            &&& dr7_condition(cleared, slot as u64) == dr7_condition(dr7, slot as u64)
            &&& dr7_length(cleared, slot as u64) == dr7_length(dr7, slot as u64)
        }),
{
    let s = slot as u64;
    assert({
        let d = dr7 & !(1u64 << (2 * s) as u64);
        &&& d & (1u64 << (2 * s) as u64) == 0
        &&& d & !(1u64 << (2 * s) as u64) == dr7 & !(1u64 << (2 * s) as u64)
        &&& d | (1u64 << (2 * s) as u64) == dr7 | (1u64 << (2 * s) as u64)
        &&& (d >> (16 + 4 * s) as u64) & 3 == (dr7 >> (16 + 4 * s) as u64) & 3
        &&& (d >> (18 + 4 * s) as u64) & 3 == (dr7 >> (18 + 4 * s) as u64) & 3
    }) by (bit_vector)
        requires
            s < 4,
    ;
}

/// Switching a slot off leaves the local-enable bits of the other slots as
/// they are.
pub proof fn lemma_disable_keeps_other_slots(dr7: u64, slot: usize, other: usize)
    requires
        slot < SLOT_COUNT,
        other < SLOT_COUNT,
        slot != other,
    ensures
        dr7_is_enabled(dr7_disabled(dr7, slot as u64), other as u64) == dr7_is_enabled(
            dr7,
            other as u64,
        ),
{
    let s = slot as u64;
    let o = other as u64;
    assert(((dr7 & !(1u64 << (2 * s) as u64)) & (1u64 << (2 * o) as u64) != 0) == (dr7 & (1u64 << (
    2 * o) as u64) != 0)) by (bit_vector)
        requires
            s < 4,
            o < 4,
            s != o,
    ;
}

/// Acknowledging the hit of a slot clears its bit in DR6 and leaves the
/// hits of the other slots as they were.
pub proof fn lemma_dr6_cleared(dr6: u64, slot: usize, other: usize)
    requires
        slot < SLOT_COUNT,
        other < SLOT_COUNT,
    ensures
        !dr6_hit(dr6_cleared(dr6, slot as u64), slot as u64),
        other != slot ==> dr6_hit(dr6_cleared(dr6, slot as u64), other as u64) == dr6_hit(
            dr6,
            other as u64,
        ),
{
    let s = slot as u64;
    let o = other as u64;
    assert((dr6 & !(1u64 << s)) & (1u64 << s) == 0) by (bit_vector)
        requires
            s < 4,
    ;
    assert(o != s ==> (dr6 & !(1u64 << s)) & (1u64 << o) == dr6 & (1u64 << o)) by (bit_vector)
        requires
            s < 4,
            o < 4,
    ;
}

impl Thread {
    /// Programs `breakpoint` into this thread, given the thread's current
    /// DR7: first the debug register of the slot is written with the
    /// watched address, then DR7 with the slot enabled. The thread must be
    /// stopped under the tracer.
    pub fn set_breakpoint(&self, breakpoint: &HardwareBreakpoint, dr7: u64) -> (r: Result<
        (Request, Request),
        Error,
    >)
        ensures
            self.state == ThreadState::Tracing ==> r == Ok::<(Request, Request), Error>(
                (
                    Request::PokeUser {
                        pid: self.pid,
                        offset: dr_offset(breakpoint.dr()),
                        word: breakpoint.address(),
                    },
                    Request::PokeUser {
                        pid: self.pid,
                        offset: dr_offset(7),
                        word: breakpoint.spec_enable(dr7),
                    },
                ),
            ),
            self.state != ThreadState::Tracing ==> r == Err::<(Request, Request), Error>(
                Error::ProtocolMisuse,
            ),
    {
        if !self.is_traced() {
            return Err(Error::ProtocolMisuse);
        }
        let address = Request::PokeUser {
            pid: self.pid,
            offset: dr_offset(breakpoint.dr()),
            word: breakpoint.address(),
        };
        let control = Request::PokeUser {
            pid: self.pid,
            offset: dr_offset(7),
            word: breakpoint.enable(dr7),
        };
        Ok((address, control))
    }

    /// Switches `breakpoint` off in this thread, given the thread's current
    /// DR7: DR7 is written with the slot's local-enable bit cleared. The
    /// thread must be stopped under the tracer.
    pub fn clear_breakpoint(&self, breakpoint: &HardwareBreakpoint, dr7: u64) -> (r: Result<
        Request,
        Error,
    >)
        ensures
            self.state == ThreadState::Tracing ==> r == Ok::<Request, Error>(
                Request::PokeUser {
                    pid: self.pid,
                    offset: dr_offset(7),
                    word: breakpoint.spec_disable(dr7),
                },
            ),
            self.state != ThreadState::Tracing ==> r == Err::<Request, Error>(
                Error::ProtocolMisuse,
            ),
    {
        if !self.is_traced() {
            return Err(Error::ProtocolMisuse);
        }
        Ok(Request::PokeUser { pid: self.pid, offset: dr_offset(7), word: breakpoint.disable(dr7) })
    }

    /// The slots that fired, in increasing order, given the thread's DR6.
    pub fn get_hit_breakpoints(&self, dr6: u64) -> (hits: Vec<usize>)
        ensures
            hits@ == hit_slots(dr6),
    {
        let mut hits: Vec<usize> = Vec::new();
        let mut slot: usize = 0;
        while slot < SLOT_COUNT
            invariant
                slot <= SLOT_COUNT,
                hits@ == hit_slots_below(dr6, slot as nat),
            decreases SLOT_COUNT - slot,
        {
            if dr6 & (1u64 << (slot as u64)) != 0 {
                hits.push(slot);
            }
            slot += 1;
        }
        hits
    }

    /// Acknowledges the hit of slot `index`, given the thread's current
    /// DR6: DR6 is written with the slot's bit cleared. An index above 3 is
    /// refused, and so is a thread that is not stopped under the tracer.
    pub fn clear_breakpoint_hit(&self, index: usize, dr6: u64) -> (r: Result<Request, Error>)
        ensures
            index >= SLOT_COUNT ==> r == Err::<Request, Error>(Error::InvalidArgument),
            index < SLOT_COUNT && self.state != ThreadState::Tracing ==> r == Err::<
                Request,
                Error,
            >(Error::ProtocolMisuse),
            index < SLOT_COUNT && self.state == ThreadState::Tracing ==> r == Ok::<Request, Error>(
                Request::PokeUser {
                    pid: self.pid,
                    offset: dr_offset(6),
                    word: dr6_cleared(dr6, index as u64),
                },
            ),
    {
        if index >= SLOT_COUNT {
            return Err(Error::InvalidArgument);
        }
        if !self.is_traced() {
            return Err(Error::ProtocolMisuse);
        }
        Ok(
            Request::PokeUser {
                pid: self.pid,
                offset: dr_offset(6),
                word: dr6 & !(1u64 << (index as u64)),
            },
        )
    }
}

} // verus!
