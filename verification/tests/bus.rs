use std::sync::mpsc::{channel, Receiver};

use chudtendo::emulator::bus::{target_of, Bus, BusTarget};
use chudtendo::emulator::component::{Command, MemoryCommand, ReadResult, WriteResult};

fn bus_with_inboxes() -> (Bus, Vec<Receiver<Command>>) {
    let mut receivers = Vec::new();
    let mut senders = Vec::new();
    for _ in 0..6 {
        let (tx, rx) = channel();
        senders.push(tx);
        receivers.push(rx);
    }
    let apu = senders.pop().unwrap();
    let timer = senders.pop().unwrap();
    let cartridge = senders.pop().unwrap();
    let wram = senders.pop().unwrap();
    let ppu = senders.pop().unwrap();
    let cpu = senders.pop().unwrap();
    (Bus::new(cpu, ppu, wram, cartridge, timer, apu), receivers)
}

#[test]
fn unusable_range_reads_no_data_at_once() {
    let (bus, _inboxes) = bus_with_inboxes();
    let mut pending = bus.read(0xfea0);
    assert_eq!(pending.try_take(), Some(ReadResult::NoData));
    assert_eq!(pending.try_take(), None);
}

#[test]
fn wram_read_is_routed_and_answered() {
    let (bus, inboxes) = bus_with_inboxes();
    let mut pending = bus.read(0xc123);
    assert_eq!(pending.try_take(), None);
    match inboxes[2].try_recv() {
        Ok(Command::Memory(MemoryCommand::Read { address, respond_to })) => {
            assert_eq!(address, 0xc123);
            respond_to.send(ReadResult::Ready(0x77)).unwrap();
        }
        other => panic!("expected a read in the WRAM inbox, got {other:?}"),
    }
    assert_eq!(pending.try_take(), Some(ReadResult::Ready(0x77)));
}

#[test]
fn write_to_departed_component_gives_no_data() {
    let (bus, mut inboxes) = bus_with_inboxes();
    // The timer's inbox is dropped.
    inboxes.remove(4);
    let mut pending = bus.write(0xff05, 1);
    assert_eq!(pending.try_take(), Some(WriteResult::NoData));
}

#[test]
fn component_that_hangs_up_answers_no_data() {
    let (bus, inboxes) = bus_with_inboxes();
    let mut pending = bus.write(0x2000, 1);
    match inboxes[3].try_recv() {
        Ok(Command::Memory(MemoryCommand::Write { respond_to, .. })) => drop(respond_to),
        other => panic!("expected a write in the cartridge inbox, got {other:?}"),
    }
    assert_eq!(pending.try_take(), Some(WriteResult::NoData));
}

#[test]
fn save_state_requests_go_to_every_component() {
    let (bus, inboxes) = bus_with_inboxes();
    let (receivers, _) = bus.save_state_components();
    assert_eq!(receivers.len(), 6);
    for inbox in &inboxes {
        assert!(matches!(inbox.try_recv(), Ok(Command::SaveState(_))));
    }
}

#[test]
fn memory_map_owners() {
    assert_eq!(target_of(0x0000), Some(BusTarget::Cartridge));
    assert_eq!(target_of(0xa123), Some(BusTarget::Cartridge));
    assert_eq!(target_of(0xff50), Some(BusTarget::Cartridge));
    assert_eq!(target_of(0x8000), Some(BusTarget::Ppu));
    assert_eq!(target_of(0xfe9f), Some(BusTarget::Ppu));
    assert_eq!(target_of(0xff55), Some(BusTarget::Ppu));
    assert_eq!(target_of(0xc000), Some(BusTarget::Wram));
    assert_eq!(target_of(0xff70), Some(BusTarget::Wram));
    assert_eq!(target_of(0xff05), Some(BusTarget::Timer));
    assert_eq!(target_of(0xff26), Some(BusTarget::Apu));
    assert_eq!(target_of(0xff77), Some(BusTarget::Apu));
    assert_eq!(target_of(0xfea0), None);
    assert_eq!(target_of(0xff0f), Some(BusTarget::Cpu));
    assert_eq!(target_of(0xffff), Some(BusTarget::Cpu));
}
