use std::sync::{Arc, Mutex};

use crosvm_macos::errno::Error;
use crosvm_macos::irqchip::hvf_gic::{
    DeviceId, DeviceKind, HvfGicChip, IrqAction, IrqEventSource, MPState, VcpuRunState,
};
use crosvm_macos::irqchip::hvf_gic_mmio::{
    BusAccessInfo, GicDistributor, GicRedistributor, GICD_CTLR, GICD_ICENABLER_BASE,
    GICD_ISENABLER_BASE, GICD_TYPER, GICR_TYPER, GICR_WAKER,
};

fn source() -> IrqEventSource {
    IrqEventSource {
        device_id: DeviceId::PciDeviceId { vendor_id: 0, device_id: 0 },
        queue_id: 0,
        device_name: "test".to_string(),
    }
}

#[test]
fn test_hvf_gic_chip_creation() {
    let chip = HvfGicChip::new(4).unwrap();
    assert_eq!(chip.num_vcpus, 4);
    assert_eq!(chip.get_vgic_version(), DeviceKind::ArmVgicV3);
    assert!(!chip.has_vgic_its());
}

#[test]
fn test_irq_event_registration() {
    let mut chip = HvfGicChip::new(1).unwrap();
    let idx = chip.register_edge_irq_event(4, Ok(11), source()).unwrap();
    assert!(idx.is_some());

    let tokens = chip.irq_event_tokens();
    assert_eq!(tokens.len(), 1);
    assert_eq!(tokens[0].0, 0); // first index
    assert_eq!(tokens[0].1.device_name, "test");
    assert_eq!(tokens[0].2, 11);
}

#[test]
fn test_service_irq() {
    let mut chip = HvfGicChip::new(1).unwrap();
    chip.service_irq(5, true);
    assert!(chip.pending_irqs[5]);
    chip.service_irq(5, false);
    assert!(!chip.pending_irqs[5]);
}

#[test]
fn test_try_clone() {
    let chip = Arc::new(Mutex::new(HvfGicChip::new(2).unwrap()));
    let cloned = Arc::clone(&chip);
    assert_eq!(cloned.lock().unwrap().num_vcpus, 2);
    // Shared pending_irqs
    chip.lock().unwrap().pending_irqs[10] = true;
    assert!(cloned.lock().unwrap().pending_irqs[10]);
}

#[test]
fn handles_share_a_chip() {
    let chip = Arc::new(Mutex::new(HvfGicChip::new(2).unwrap()));
    let cloned = Arc::clone(&chip);
    chip.lock().unwrap().service_irq(10, true);
    cloned.lock().unwrap().service_irq(11, false);
    assert_eq!(chip.lock().unwrap().interrupts_injected(-9), Err(Error::new(5)));
    assert!(cloned.lock().unwrap().inject_interrupts());
    assert_eq!(cloned.lock().unwrap().interrupts_injected(0), Ok(()));
    assert!(!chip.lock().unwrap().inject_interrupts());
}

#[test]
fn interrupts_do_not_mix() {
    let mut chip = HvfGicChip::new(1).unwrap();
    chip.service_irq(5, true);
    chip.service_irq(6, true);
    chip.service_irq(5, false);
    assert!(chip.pending_irqs[6]);
    chip.service_irq(100_000, true);
    assert_eq!(chip.pending_irqs.len(), 288);
}

#[test]
fn pending_interrupts_are_delivered_once() {
    let mut chip = HvfGicChip::new(1).unwrap();
    assert!(!chip.inject_interrupts());
    chip.service_irq(5, true);
    assert!(chip.inject_interrupts());
    assert_eq!(chip.interrupts_injected(0), Ok(()));
    assert!(!chip.inject_interrupts());
    assert_eq!(chip.interrupts_injected(-9), Err(Error::new(5)));
}

#[test]
fn events_reach_the_vcpus() {
    let mut chip = HvfGicChip::new(2).unwrap();
    chip.set_vcpu_handle(1, 99);
    chip.set_vcpu_handle(7, 98);
    assert_eq!(chip.register_level_irq_event(4, Ok(11), source()), Ok(Some(0)));
    assert_eq!(
        chip.register_edge_irq_event(4, Err(Error::new(3)), source()),
        Err(Error::new(3))
    );
    assert_eq!(
        chip.service_irq_event(0, true),
        vec![
            IrqAction::Clear { trigger_event: 11 },
            IrqAction::SetSpi { intid: 36, level: true },
        ]
    );
    assert_eq!(chip.register_edge_irq_event(5, Ok(12), source()), Ok(Some(1)));
    assert_eq!(
        chip.service_irq_event(1, true),
        vec![
            IrqAction::Clear { trigger_event: 12 },
            IrqAction::SetSpi { intid: 37, level: true },
            IrqAction::SetSpi { intid: 37, level: false },
        ]
    );
    let emulated = chip.service_irq_event(0, false);
    assert_eq!(emulated[0], IrqAction::Clear { trigger_event: 11 });
    assert!(emulated.contains(&IrqAction::Inject { vcpu: 99 }));
    assert!(chip.pending_irqs[4]);
    assert!(chip.service_irq_event(2, true).is_empty());
    chip.unregister_level_irq_event(4);
    assert_eq!(chip.irq_event_tokens().len(), 1);
    chip.unregister_edge_irq_event(5);
    assert!(chip.irq_event_tokens().is_empty());
}

#[test]
fn vcpus_are_always_runnable() {
    let chip = HvfGicChip::new(1).unwrap();
    assert_eq!(chip.wait_until_runnable(), VcpuRunState::Runnable);
    assert_eq!(chip.get_mp_state(0), MPState::Runnable);
    assert_eq!(chip.irq_delayed_event_token(), None);
}

fn at(offset: u64) -> BusAccessInfo {
    BusAccessInfo { offset, address: 0, id: 0 }
}

fn read_word(dist: &mut GicDistributor, offset: u64) -> u32 {
    let mut data = [0u8; 4];
    dist.read(at(offset), &mut data);
    u32::from_le_bytes(data)
}

#[test]
fn distributor_registers() {
    let mut dist = GicDistributor::new(64);
    assert_eq!(dist.debug_label(), "GICv3 Distributor");
    dist.write(at(GICD_CTLR), &0x8000_0002u32.to_le_bytes());
    assert_eq!(read_word(&mut dist, GICD_CTLR), 2);
    assert_eq!(read_word(&mut dist, GICD_TYPER), 0x0148_0001);
    dist.write(at(GICD_ISENABLER_BASE + 4), &0xf0u32.to_le_bytes());
    dist.write(at(GICD_ISENABLER_BASE + 4), &0x0fu32.to_le_bytes());
    assert_eq!(read_word(&mut dist, GICD_ISENABLER_BASE + 4), 0xff);
    dist.write(at(GICD_ICENABLER_BASE + 4), &0x81u32.to_le_bytes());
    assert_eq!(read_word(&mut dist, GICD_ISENABLER_BASE + 4), 0x7e);
    assert_eq!(read_word(&mut dist, GICD_ISENABLER_BASE), 0);
    let mut short = [0xaau8; 2];
    dist.read(at(GICD_TYPER), &mut short);
    assert_eq!(short, [1, 0]);
}

#[test]
fn redistributor_registers() {
    let mut last = GicRedistributor::new(3, 4);
    let mut data = [0u8; 8];
    last.read(at(GICR_TYPER), &mut data);
    assert_eq!(u64::from_le_bytes(data) >> 8 & 0xffff, 3);
    assert_eq!(data[0] & 0x10, 0x10);
    let mut first = GicRedistributor::new(0, 4);
    first.read(at(GICR_TYPER), &mut data);
    assert_eq!(data[0] & 0x10, 0);
    let mut word = [0xffu8; 4];
    last.write(at(GICR_WAKER), &6u32.to_le_bytes());
    last.read(at(GICR_WAKER), &mut word);
    assert_eq!(word[0] & 4, 0);
}
