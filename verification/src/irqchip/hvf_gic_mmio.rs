//! The registers of the interrupt controller as a guest sees them where the
//! framework has no controller of its own: just enough for a guest to detect
//! the controller and set it up.

use vstd::prelude::*;
use vstd::string::StringExecFns;

use crate::decimal::{decimal, to_decimal};
use crate::irqchip::hvf_gic::DeviceId;
use crate::words::{from_le16, from_le32, le32, le64, to_le32, to_le64, word16, word32};

verus! {

/// Distributor control.
pub const GICD_CTLR: u64 = 0;

/// Distributor type.
pub const GICD_TYPER: u64 = 4;

/// Distributor implementer.
pub const GICD_IIDR: u64 = 8;

/// The first register that enables interrupts.
pub const GICD_ISENABLER_BASE: u64 = 0x100;

/// The first register that disables interrupts.
pub const GICD_ICENABLER_BASE: u64 = 0x180;

/// Distributor peripheral identification.
pub const GICD_PIDR2: u64 = 0xFFE8;

/// Redistributor implementer.
pub const GICR_IIDR: u64 = 4;

/// Redistributor type, a 64-bit register.
pub const GICR_TYPER: u64 = 8;

/// Redistributor power state.
pub const GICR_WAKER: u64 = 0x14;

/// Redistributor peripheral identification.
pub const GICR_PIDR2: u64 = 0xFFE8;

/// Enables the interrupts of a processor.
pub const GICR_ISENABLER0: u64 = 0x1_0100;

/// Disables the interrupts of a processor.
pub const GICR_ICENABLER0: u64 = 0x1_0180;

/// The implementer that both parts show.
pub const IIDR_VALUE: u32 = 0x0100_043B;

/// Version 3 of the architecture.
pub const PIDR2_VALUE: u32 = 0x3B;

/// The fixed fields of the distributor type: ten bits of interrupt number, and
/// affinity level 3.
pub const TYPER_FIXED: u32 = 0x0148_0000;

/// An access on the bus.
#[derive(Clone, Copy, Debug, PartialEq, Eq, Structural)]
pub struct BusAccessInfo {
    /// The offset in the device.
    pub offset: u64,
    /// The address.
    pub address: u64,
    /// The number of the processor.
    pub id: usize,
}

/// The value of a write: one, two or four bytes, the lowest first; any other
/// width writes zero.
pub open spec fn written_value(data: Seq<u8>) -> u32 {
    if data.len() == 1 {
        data[0] as u32
    } else if data.len() == 2 {
        word16(data) as u32
    } else if data.len() == 4 {
        word32(data)
    } else {
        0
    }
}

/// What a read leaves in a buffer: the low bytes of the value, as many as fit,
/// and behind them what was there.
pub open spec fn filled(before: Seq<u8>, bytes: Seq<u8>) -> Seq<u8> {
    let n = if before.len() < bytes.len() {
        before.len() as int
    } else {
        bytes.len() as int
    };
    bytes.take(n) + before.skip(n)
}

fn value_of(data: &[u8]) -> (val: u32)
    ensures
        val == written_value(data@),
{
    if data.len() == 1 {
        data[0] as u32
    } else if data.len() == 2 {
        from_le16(data) as u32
    } else if data.len() == 4 {
        from_le32(data)
    } else {
        0
    }
}

fn fill(data: &mut [u8], bytes: &Vec<u8>)
    ensures
        final(data)@ == filled(old(data)@, bytes@),
{
    let ghost before = data@;
    let mut i: usize = 0;
    while i < data.len() && i < bytes.len()
        invariant
            i <= data@.len(),
            i <= bytes@.len(),
            data@.len() == before.len(),
            data@ =~= bytes@.take(i as int) + before.skip(i as int),
        decreases data.len() - i,
    {
        data[i] = bytes[i];
        i += 1;
    }
    assert(data@ =~= filled(before, bytes@));
}

/// The distributor.
#[derive(Clone, Copy, Debug, PartialEq, Eq)]
pub struct GicDistributor {
    /// The control register.
    pub ctlr: u32,
    /// The number of interrupts.
    pub num_irqs: u32,
    /// Which of the first 64 interrupts are enabled.
    pub enabled_irqs: [u32; 2],
}

/// The number of groups of 32 interrupts, less one.
pub open spec fn it_lines(num_irqs: u32) -> u32 {
    if num_irqs >= 32 {
        (num_irqs / 32 - 1) as u32
    } else {
        0
    }
}

/// A distributor on which nothing is enabled: its control register, the number of its
/// interrupts, and which of them are enabled.
pub open spec fn new_distributor(num_irqs: u32) -> (u32, u32, Seq<u32>) {
    (0, num_irqs, seq![0u32, 0u32])
}

impl GicDistributor {
    /// The value that a register reads as.
    pub open spec fn register(self, offset: u64) -> u32 {
        if offset == GICD_CTLR {
            self.ctlr % 0x8000_0000
        } else if offset == GICD_TYPER {
            it_lines(self.num_irqs) | TYPER_FIXED
        } else if offset == GICD_IIDR {
            IIDR_VALUE
        } else if offset == GICD_PIDR2 {
            PIDR2_VALUE
        } else if GICD_ISENABLER_BASE <= offset < GICD_ISENABLER_BASE + 8 {
            self.enabled_irqs@[(offset - GICD_ISENABLER_BASE) / 4]
        } else {
            0
        }
    }

    /// What a read leaves in a buffer.
    pub open spec fn answer(self, offset: u64, before: Seq<u8>) -> Seq<u8> {
        filled(before, le32(self.register(offset)))
    }

    /// The distributor after a write: enabling sets bits, disabling clears them.
    pub open spec fn written(self, offset: u64, val: u32) -> (u32, Seq<u32>) {
        if offset == GICD_CTLR {
            (val, self.enabled_irqs@)
        } else if GICD_ISENABLER_BASE <= offset < GICD_ISENABLER_BASE + 8 {
            let i = (offset - GICD_ISENABLER_BASE) / 4;
            (self.ctlr, self.enabled_irqs@.update(i, self.enabled_irqs@[i] | val))
        } else if GICD_ICENABLER_BASE <= offset < GICD_ICENABLER_BASE + 8 {
            let i = (offset - GICD_ICENABLER_BASE) / 4;
            (self.ctlr, self.enabled_irqs@.update(i, self.enabled_irqs@[i] & !val))
        } else {
            (self.ctlr, self.enabled_irqs@)
        }
    }

    /// A distributor on which nothing is enabled.
    pub fn new(num_irqs: u32) -> (device: GicDistributor)
        ensures
            (device.ctlr, device.num_irqs, device.enabled_irqs@) == new_distributor(num_irqs),
    {
        GicDistributor { ctlr: 0, num_irqs, enabled_irqs: [0, 0] }
    }

    /// The device on the bus.
    pub fn device_id(&self) -> (id: DeviceId)
        ensures
            id == (DeviceId::PciDeviceId { vendor_id: 0, device_id: 0 }),
    {
        DeviceId::PciDeviceId { vendor_id: 0, device_id: 0 }
    }

    /// The name of the device in logs.
    pub fn debug_label(&self) -> (label: String)
        ensures
            label@ == "GICv3 Distributor"@,
    {
        "GICv3 Distributor".to_owned()
    }

    /// Reads a register.
    pub fn read(&mut self, info: BusAccessInfo, data: &mut [u8])
        ensures
            *final(self) == *old(self),
            final(data)@ == old(self).answer(info.offset, old(data)@),
    {
        let offset: u64 = info.offset;
        let val: u32 = if offset == GICD_CTLR {
            self.ctlr % 0x8000_0000
        } else if offset == GICD_TYPER {
            (self.num_irqs / 32).saturating_sub(1) | TYPER_FIXED
        } else if offset == GICD_IIDR {
            IIDR_VALUE
        } else if offset == GICD_PIDR2 {
            PIDR2_VALUE
        } else if offset >= GICD_ISENABLER_BASE && offset < GICD_ISENABLER_BASE + 8 {
            self.enabled_irqs[((offset - GICD_ISENABLER_BASE) / 4) as usize]
        } else {
            0
        };
        let bytes: Vec<u8> = to_le32(val);
        fill(data, &bytes);
    }

    /// Writes a register.
    pub fn write(&mut self, info: BusAccessInfo, data: &[u8])
        ensures
            (final(self).ctlr, final(self).enabled_irqs@) == old(self).written(
                info.offset,
                written_value(data@),
            ),
            final(self).num_irqs == old(self).num_irqs,
    {
        let offset: u64 = info.offset;
        let val: u32 = value_of(data);
        if offset == GICD_CTLR {
            self.ctlr = val;
        } else if offset >= GICD_ISENABLER_BASE && offset < GICD_ISENABLER_BASE + 8 {
            let i: usize = ((offset - GICD_ISENABLER_BASE) / 4) as usize;
            self.enabled_irqs[i] = self.enabled_irqs[i] | val;
        } else if offset >= GICD_ICENABLER_BASE && offset < GICD_ICENABLER_BASE + 8 {
            let i: usize = ((offset - GICD_ICENABLER_BASE) / 4) as usize;
            self.enabled_irqs[i] = self.enabled_irqs[i] & !val;
        }
    }
}

/// The part of the interrupt controller that belongs to one processor.
#[derive(Clone, Copy, Debug, PartialEq, Eq, Structural)]
pub struct GicRedistributor {
    /// The number of the processor.
    pub vcpu_id: u32,
    /// The number of processors.
    pub num_vcpus: u32,
    /// The power state register.
    pub waker: u32,
    /// Which interrupts of the processor are enabled.
    pub sgi_enabled: u32,
}

/// The redistributor of a processor that is awake.
pub open spec fn new_redistributor(vcpu_id: u32, num_vcpus: u32) -> GicRedistributor {
    GicRedistributor { vcpu_id, num_vcpus, waker: 0, sgi_enabled: 0 }
}

impl GicRedistributor {
    /// The type register: the affinity, the number of the processor, and a mark
    /// on the last one.
    pub open spec fn typer(self) -> u64 {
        let last: u64 = if self.vcpu_id == self.num_vcpus - 1 {
            0x10
        } else {
            0
        };
        ((self.vcpu_id as u64) << 32) | last | ((self.vcpu_id as u64) << 8)
    }

    /// The low word that a register reads as.
    pub open spec fn register(self, offset: u64) -> u32 {
        if offset == GICR_IIDR {
            IIDR_VALUE
        } else if offset == GICR_TYPER {
            (self.typer() % 0x1_0000_0000) as u32
        } else if offset == GICR_WAKER {
            self.waker
        } else if offset == GICR_PIDR2 {
            PIDR2_VALUE
        } else if offset == GICR_ISENABLER0 {
            self.sgi_enabled
        } else {
            0
        }
    }

    /// What a read leaves in a buffer.
    pub open spec fn answer(self, offset: u64, before: Seq<u8>) -> Seq<u8> {
        if offset == GICR_TYPER && before.len() >= 8 {
            filled(before, le64(self.typer()))
        } else {
            filled(before, le32(self.register(offset)))
        }
    }

    /// The redistributor after a write. The processor never sleeps.
    pub open spec fn written(self, offset: u64, val: u32) -> GicRedistributor {
        if offset == GICR_WAKER {
            GicRedistributor { waker: val & 0xffff_fff9, ..self }
        } else if offset == GICR_ISENABLER0 {
            GicRedistributor { sgi_enabled: self.sgi_enabled | val, ..self }
        } else if offset == GICR_ICENABLER0 {
            GicRedistributor { sgi_enabled: self.sgi_enabled & !val, ..self }
        } else {
            self
        }
    }

    /// The redistributor of a processor that is awake.
    pub fn new(vcpu_id: u32, num_vcpus: u32) -> (device: GicRedistributor)
        ensures
            device == new_redistributor(vcpu_id, num_vcpus),
    {
        GicRedistributor { vcpu_id, num_vcpus, waker: 0, sgi_enabled: 0 }
    }

    /// The device on the bus.
    pub fn device_id(&self) -> (id: DeviceId)
        ensures
            id == (DeviceId::PciDeviceId { vendor_id: 0, device_id: 0 }),
    {
        DeviceId::PciDeviceId { vendor_id: 0, device_id: 0 }
    }

    /// The name of the device in logs.
    pub fn debug_label(&self) -> (label: String)
        ensures
            label@ == "GICv3 Redistributor "@ + decimal(self.vcpu_id as nat),
    {
        let mut label: String = "GICv3 Redistributor ".to_owned();
        label.append(to_decimal(self.vcpu_id as u64).as_str());
        label
    }

    /// Reads a register. The type register fills eight bytes if there is room
    /// for them.
    pub fn read(&mut self, info: BusAccessInfo, data: &mut [u8])
        requires
            info.offset == GICR_TYPER ==> old(self).num_vcpus >= 1,
        ensures
            *final(self) == *old(self),
            final(data)@ == old(self).answer(info.offset, old(data)@),
    {
        let offset: u64 = info.offset;
        let val: u64 = if offset == GICR_IIDR {
            IIDR_VALUE as u64
        } else if offset == GICR_TYPER {
            let last: u64 = if self.vcpu_id == self.num_vcpus - 1 {
                0x10
            } else {
                0
            };
            ((self.vcpu_id as u64) << 32) | last | ((self.vcpu_id as u64) << 8)
        } else if offset == GICR_WAKER {
            self.waker as u64
        } else if offset == GICR_PIDR2 {
            PIDR2_VALUE as u64
        } else if offset == GICR_ISENABLER0 {
            self.sgi_enabled as u64
        } else {
            0
        };
        if offset == GICR_TYPER && data.len() >= 8 {
            let bytes: Vec<u8> = to_le64(val);
            fill(data, &bytes);
        } else {
            let bytes: Vec<u8> = to_le32((val % 0x1_0000_0000) as u32);
            fill(data, &bytes);
        }
    }

    /// Writes a register.
    pub fn write(&mut self, info: BusAccessInfo, data: &[u8])
        ensures
            *final(self) == old(self).written(info.offset, written_value(data@)),
    {
        let offset: u64 = info.offset;
        let val: u32 = value_of(data);
        if offset == GICR_WAKER {
            self.waker = val & 0xffff_fff9;
        } else if offset == GICR_ISENABLER0 {
            self.sgi_enabled = self.sgi_enabled | val;
        } else if offset == GICR_ICENABLER0 {
            self.sgi_enabled = self.sgi_enabled & !val;
        }
    }
}

/// Whether bit `n` of a word is set.
pub open spec fn bit_set(word: u32, n: u32) -> bool {
    (word >> n) & 1 == 1
}

/// Enabling interrupts adds exactly those whose bits are written, disabling
/// takes exactly those away.
pub proof fn law_enable_and_disable(word: u32, val: u32, n: u32)
    requires
        n < 32,
    ensures
        bit_set(word | val, n) == (bit_set(word, n) || bit_set(val, n)),
        bit_set(word & !val, n) == (bit_set(word, n) && !bit_set(val, n)),
{
    assert(((word | val) >> n) & 1 == 1 <==> ((word >> n) & 1 == 1 || (val >> n) & 1 == 1))
        by (bit_vector)
        requires
            n < 32,
    ;
    assert(((word & !val) >> n) & 1 == 1 <==> ((word >> n) & 1 == 1 && !((val >> n) & 1 == 1)))
        by (bit_vector)
        requires
            n < 32,
    ;
}

/// The processor is reported awake whatever is written to its power state.
pub proof fn law_never_asleep(device: GicRedistributor, val: u32)
    ensures
        !bit_set(device.written(GICR_WAKER, val).waker, 1),
        !bit_set(device.written(GICR_WAKER, val).waker, 2),
{
    assert(((val & 0xffff_fff9) >> 1u32) & 1 == 0) by (bit_vector);
    assert(((val & 0xffff_fff9) >> 2u32) & 1 == 0) by (bit_vector);
}

/// The distributor tells the number of interrupts it has: its type register
/// holds the number of groups in its low bits, as long as the number fits there.
pub proof fn law_typer_fields(num_irqs: u32)
    requires
        num_irqs <= 1024,
    ensures
        it_lines(num_irqs) | TYPER_FIXED == it_lines(num_irqs) + TYPER_FIXED,
{
    let n = it_lines(num_irqs);
    assert(n | 0x0148_0000 == n + 0x0148_0000) by (bit_vector)
        requires
            n < 32,
    ;
}

/// The bytes of a word are those that a write of four bytes takes, a read gives back as
/// many of its low bytes as there is room for, and what is behind them stays.
pub proof fn law_bytes_of_an_access(value: u32, before: Seq<u8>, byte: u8)
    ensures
        written_value(le32(value)) == value,
        value <= 0xffff ==> written_value(crate::words::le16(value as u16)) == value,
        written_value(seq![byte]) == byte,
        before.len() == 4 ==> filled(before, le32(value)) == le32(value),
        filled(before, le32(value)).len() == before.len(),
        forall|i: int|
            0 <= i < before.len() ==> #[trigger] filled(before, le32(value))[i] == (if i < 4 {
                le32(value)[i]
            } else {
                before[i]
            }),
{
    crate::words::law_word32_round_trip(value);
    if value <= 0xffff {
        crate::words::law_word16_round_trip(value as u16);
    }
    if before.len() == 4 {
        assert(filled(before, le32(value)) =~= le32(value));
    }
}

/// What the guest sees of the distributor: the control register as it was written, but
/// for the top bit, which is never set; the number of groups of 32 interrupts, less one,
/// in the lowest bits of the type, and ten bits of interrupt numbers and affinity level
/// three above; who made it and that it is version three; which of the first 64
/// interrupts are enabled; and zero everywhere else.
pub proof fn law_distributor_registers(device: GicDistributor, offset: u64)
    ensures
        offset == 0 ==> device.register(offset) == device.ctlr & 0x7fff_ffff,
        offset == 4 ==> device.register(offset) == it_lines(device.num_irqs) | (1u32 << 24) | (9u32
            << 19),
        offset == 8 ==> device.register(offset) == 0x0100_043b,
        offset == 0xffe8 ==> device.register(offset) == 0x3b,
        0x100 <= offset < 0x104 ==> device.register(offset) == device.enabled_irqs@[0],
        0x104 <= offset < 0x108 ==> device.register(offset) == device.enabled_irqs@[1],
        device.register(offset) != 0 ==> offset == 0 || offset == 4 || offset == 8 || offset == 0xffe8
            || 0x100 <= offset < 0x108,
        device.num_irqs >= 32 ==> 32 * (it_lines(device.num_irqs) + 1) <= device.num_irqs < 32 * (
        it_lines(device.num_irqs) + 2),
        device.num_irqs < 32 ==> it_lines(device.num_irqs) == 0,
{
    let ctlr = device.ctlr;
    let lines = it_lines(device.num_irqs);
    assert(ctlr % 0x8000_0000 == ctlr & 0x7fff_ffff) by (bit_vector);
    assert(lines | (1u32 << 24) | (9u32 << 19) == lines | 0x0148_0000) by (bit_vector);
}

/// What the guest does to the distributor: it sets the control register, it enables the
/// interrupts whose bits it writes to one pair of registers, and it disables those whose
/// bits it writes to another; each bit stands for the interrupt of its number, the first
/// 32 in the first word. No other write has an effect, and what is enabled is what the
/// guest reads.
pub proof fn law_distributor_writes(device: GicDistributor, offset: u64, val: u32, irq: u32)
    requires
        irq < 64,
    ensures
        ({
            let (ctlr, enabled) = device.written(offset, val);
            let word = (irq / 32) as int;
            let was = bit_set(device.enabled_irqs@[word], (irq % 32) as u32);
            let is = bit_set(enabled[word], (irq % 32) as u32);
            let named = bit_set(val, (irq % 32) as u32);
            &&& enabled.len() == 2
            &&& offset == 0 ==> ctlr == val
            &&& offset != 0 ==> ctlr == device.ctlr
            &&& 0x100 + 4 * word <= offset < 0x104 + 4 * word ==> is == (was || named)
            &&& 0x180 + 4 * word <= offset < 0x184 + 4 * word ==> is == (was && !named)
            &&& !(0x100 + 4 * word <= offset < 0x104 + 4 * word) && !(0x180 + 4 * word <= offset
                < 0x184 + 4 * word) ==> is == was
        }),
{
    let n: u32 = (irq % 32) as u32;
    law_enable_and_disable(device.enabled_irqs@[0], val, n);
    law_enable_and_disable(device.enabled_irqs@[1], val, n);
}

/// What the guest sees of the redistributor of a processor: its number, twice, in the
/// type register, and a mark on the last one; who made it and that it is version three;
/// that it is awake; which of its interrupts are enabled; and zero everywhere else.
pub proof fn law_redistributor_registers(device: GicRedistributor, offset: u64)
    requires
        device.num_vcpus >= 1,
    ensures
        device.vcpu_id < 0x100_0000 ==> device.typer() >> 32 == device.vcpu_id,
        (device.typer() >> 4) & 1 == 1 <==> device.vcpu_id + 1 == device.num_vcpus,
        device.vcpu_id < 0x100_0000 ==> (device.typer() >> 8) & 0xff_ffff == device.vcpu_id,
        device.typer() & 0xef == 0,
        offset == 4 ==> device.register(offset) == 0x0100_043b,
        offset == 8 ==> device.register(offset) == device.typer() & 0xffff_ffff,
        offset == 0x14 ==> device.register(offset) == device.waker,
        offset == 0xffe8 ==> device.register(offset) == 0x3b,
        offset == 0x1_0100 ==> device.register(offset) == device.sgi_enabled,
        device.register(offset) != 0 ==> offset == 4 || offset == 8 || offset == 0x14 || offset
            == 0xffe8 || offset == 0x1_0100,
{
    let id = device.vcpu_id as u64;
    let last: u64 = if device.vcpu_id == device.num_vcpus - 1 {
        0x10
    } else {
        0
    };
    let typer = device.typer();
    assert(typer == (id << 32) | last | (id << 8));
    assert(last == 0x10 || last == 0);
    lemma_typer_bits(id, last);
    assert(typer % 0x1_0000_0000 == typer & 0xffff_ffff) by (bit_vector);
}

proof fn lemma_typer_bits(id: u64, last: u64)
    by (bit_vector)
    requires
        id <= 0xffff_ffff,
        last == 0x10 || last == 0,
    ensures
        id < 0x100_0000 ==> (((id << 32) | last | (id << 8)) >> 32) == id,
        ((((id << 32) | last | (id << 8)) >> 4) & 1 == 1) == (last == 0x10),
        id < 0x100_0000 ==> (((id << 32) | last | (id << 8)) >> 8) & 0xff_ffff == id,
        ((id << 32) | last | (id << 8)) & 0xef == 0,
{
}

/// What the guest does to the redistributor of a processor: it enables and disables the
/// interrupts whose bits it writes, and sets its power state, which never says that it
/// sleeps. No other write has an effect, and what it tells of itself stays. A new one is
/// awake and has nothing enabled.
pub proof fn law_redistributor_writes(device: GicRedistributor, offset: u64, val: u32, irq: u32)
    requires
        irq < 32,
    ensures
        ({
            let after = device.written(offset, val);
            let was = bit_set(device.sgi_enabled, irq);
            let is = bit_set(after.sgi_enabled, irq);
            let named = bit_set(val, irq);
            &&& after.vcpu_id == device.vcpu_id && after.num_vcpus == device.num_vcpus
            &&& offset == 0x1_0100 ==> is == (was || named)
            &&& offset == 0x1_0180 ==> is == (was && !named)
            &&& offset != 0x1_0100 && offset != 0x1_0180 ==> is == was
            &&& offset == 0x14 ==> bit_set(after.waker, irq) == (named && irq != 1 && irq != 2)
            &&& offset != 0x14 ==> after.waker == device.waker
        }),
        new_redistributor(device.vcpu_id, device.num_vcpus) == (GicRedistributor {
            waker: 0,
            sgi_enabled: 0,
            ..device
        }),
        new_distributor(val).0 == 0,
        new_distributor(val).1 == val,
        forall|i: int| 0 <= i < 2 ==> #[trigger] new_distributor(val).2[i] == 0,
        new_distributor(val).2.len() == 2,
{
    law_enable_and_disable(device.sgi_enabled, val, irq);
    assert(((val & 0xffff_fff9) >> irq) & 1 == 1 <==> (val >> irq) & 1 == 1 && irq != 1 && irq != 2)
        by (bit_vector)
        requires
            irq < 32,
    ;
}

/// A read of the guest gives the low bytes of the register, as many as are asked for; the
/// type register of a redistributor is one of eight bytes where as many are asked for.
pub proof fn law_reads_give_registers(
    distributor: GicDistributor,
    redistributor: GicRedistributor,
    offset: u64,
    before: Seq<u8>,
)
    ensures
        before.len() == 4 ==> distributor.answer(offset, before) == le32(
            distributor.register(offset),
        ),
        before.len() == 4 ==> redistributor.answer(offset, before) == le32(
            redistributor.register(offset),
        ),
        before.len() == 8 && offset == 8 ==> redistributor.answer(offset, before) == le64(
            redistributor.typer(),
        ),
        distributor.answer(offset, before).len() == before.len(),
        redistributor.answer(offset, before).len() == before.len(),
{
    law_bytes_of_an_access(distributor.register(offset), before, 0);
    law_bytes_of_an_access(redistributor.register(offset), before, 0);
    if before.len() == 8 {
        assert(filled(before, le64(redistributor.typer())) =~= le64(redistributor.typer()));
    }
}

} // verus!
