use vstd::prelude::*;

use std::sync::mpsc::{Receiver, Sender};

use super::component::{Command, HardwareMode, MemoryCommand, PpuFeatures, ReadResult, WriteResult};
use crate::platform::{channel_send, channel_try_recv, new_channel, Received, SendReceipt};

verus! {

/// The component that answers for an address of the memory map.
#[derive(Clone, Copy, Debug, PartialEq, Eq, Structural)]
pub enum BusTarget {
    Cpu,
    Ppu,
    Wram,
    Cartridge,
    Timer,
    Apu,
}

/// The memory map: which component owns `address`, or `None` for the
/// unusable range 0xFEA0..=0xFEFF.
pub open spec fn bus_target(address: u16) -> Option<BusTarget> {
    if address <= 0x7fff || (0xa000 <= address <= 0xbfff) || address == 0xff50 {
        Some(BusTarget::Cartridge)
    } else if (0x8000 <= address <= 0x9fff) || (0xfe00 <= address <= 0xfe9f) || (0xff40
        <= address <= 0xff4b) || address == 0xff4f || (0xff51 <= address <= 0xff55) || (0xff68
        <= address <= 0xff6b) {
        Some(BusTarget::Ppu)
    } else if (0xc000 <= address <= 0xfdff) || address == 0xff70 {
        Some(BusTarget::Wram)
    } else if 0xff04 <= address <= 0xff07 {
        Some(BusTarget::Timer)
    } else if (0xff10 <= address <= 0xff26) || (0xff30 <= address <= 0xff3f) || (0xff76
        <= address <= 0xff77) {
        Some(BusTarget::Apu)
    } else if 0xfea0 <= address <= 0xfeff {
        None
    } else {
        Some(BusTarget::Cpu)
    }
}

/// `command` is a read of `address` that asks for an answer.
pub open spec fn is_read_of(command: Command, address: u16) -> bool {
    match command {
        Command::Memory(MemoryCommand::Read { address: a, .. }) => a == address,
        _ => false,
    }
}

/// `command` is a write of `value` to `address` that asks for an answer.
pub open spec fn is_write_of(command: Command, address: u16, value: u8) -> bool {
    match command {
        Command::Memory(MemoryCommand::Write { address: a, value: v, respond_to }) => a == address && v
            == value && respond_to is Some,
        _ => false,
    }
}

/// `command` loads the save-state blob `blob`.
pub open spec fn loads(command: Command, blob: Seq<u8>) -> bool {
    match command {
        Command::LoadState(b) => b@ == blob,
        _ => false,
    }
}

/// `receipt` records the send of a read of `address` to `mailbox`.
pub open spec fn sent_read(receipt: Option<SendReceipt<Command>>, mailbox: Sender<Command>, address: u16) -> bool {
    match receipt {
        Some(r) => r.sender() == mailbox && is_read_of(r.message(), address),
        None => false,
    }
}

/// `receipt` records the send of a write of `value` to `address` to `mailbox`.
pub open spec fn sent_write(
    receipt: Option<SendReceipt<Command>>,
    mailbox: Sender<Command>,
    address: u16,
    value: u8,
) -> bool {
    match receipt {
        Some(r) => r.sender() == mailbox && is_write_of(r.message(), address, value),
        None => false,
    }
}

/// A request is pending exactly where it was sent and its channel took it.
pub open spec fn sent_and_taken(receipt: Option<SendReceipt<Command>>) -> bool {
    match receipt {
        Some(r) => r.accepted(),
        None => false,
    }
}

/// `receipts` record one send of `command(k)` to each mailbox of `mailboxes`, in order.
pub open spec fn sent_in_order(
    receipts: Seq<SendReceipt<Command>>,
    mailboxes: Seq<Sender<Command>>,
    command: spec_fn(int, Command) -> bool,
) -> bool {
    &&& receipts.len() == mailboxes.len()
    &&& forall|k: int|
        0 <= k < receipts.len() ==> (#[trigger] receipts[k]).sender() == mailboxes[k] && command(
            k,
            receipts[k].message(),
        )
}

/// The mailboxes of the six components; each memory access is sent to the one
/// that owns its address.
#[derive(Clone, Debug)]
pub struct Bus {
    pub cpu: Sender<Command>,
    pub ppu: Sender<Command>,
    pub wram: Sender<Command>,
    pub cartridge: Sender<Command>,
    pub timer: Sender<Command>,
    pub apu: Sender<Command>,
}

impl Bus {
    /// The mailbox of `target`.
    pub open spec fn mailbox(&self, target: BusTarget) -> Sender<Command> {
        match target {
            BusTarget::Cpu => self.cpu,
            BusTarget::Ppu => self.ppu,
            BusTarget::Wram => self.wram,
            BusTarget::Cartridge => self.cartridge,
            BusTarget::Timer => self.timer,
            BusTarget::Apu => self.apu,
        }
    }

    pub fn new(
        cpu: Sender<Command>,
        ppu: Sender<Command>,
        wram: Sender<Command>,
        cartridge: Sender<Command>,
        timer: Sender<Command>,
        apu: Sender<Command>,
    ) -> (bus: Self)
        ensures
            bus.cpu == cpu,
            bus.ppu == ppu,
            bus.wram == wram,
            bus.cartridge == cartridge,
            bus.timer == timer,
            bus.apu == apu,
    {
        Bus { cpu, ppu, wram, cartridge, timer, apu }
    }

    /// Sends a read of `address` to the component that owns it. An address
    /// that no component owns, or whose component is gone, reads as `NoData`
    /// at once; otherwise the answer is awaited.
    pub fn read(&self, address: u16) -> (pending: PendingRead)
        ensures
            bus_target(address) is None ==> !pending.is_pending() && pending.ready_result() == Some(
                ReadResult::NoData,
            ) && pending.sent() is None,
            bus_target(address) matches Some(t) ==> sent_read(pending.sent(), self.mailbox(t), address),
            pending.is_pending() == sent_and_taken(pending.sent()),
            !pending.is_pending() ==> pending.ready_result() == Some(ReadResult::NoData),
    {
        let target = match self.route(address) {
            Some(target) => target,
            None => {
                return PendingRead::ready(ReadResult::NoData, None);
            },
        };
        let (respond_to, receiver) = new_channel();
        let command = Command::Memory(MemoryCommand::Read { address, respond_to });
        let (taken, receipt) = channel_send(target, command);
        if !taken {
            return PendingRead::ready(ReadResult::NoData, Some(receipt));
        }
        PendingRead::pending(receiver, receipt)
    }

    /// Sends a write of `value` to `address` to the component that owns it,
    /// as `read` does.
    pub fn write(&self, address: u16, value: u8) -> (pending: PendingWrite)
        ensures
            bus_target(address) is None ==> !pending.is_pending() && pending.ready_result() == Some(
                WriteResult::NoData,
            ) && pending.sent() is None,
            bus_target(address) matches Some(t) ==> sent_write(pending.sent(), self.mailbox(t), address, value),
            pending.is_pending() == sent_and_taken(pending.sent()),
            !pending.is_pending() ==> pending.ready_result() == Some(WriteResult::NoData),
    {
        let target = match self.route(address) {
            Some(target) => target,
            None => {
                return PendingWrite::ready(WriteResult::NoData, None);
            },
        };
        let (respond_to, receiver) = new_channel();
        let command = Command::Memory(
            MemoryCommand::Write { address, value, respond_to: Some(respond_to) },
        );
        let (taken, receipt) = channel_send(target, command);
        if !taken {
            return PendingWrite::ready(WriteResult::NoData, Some(receipt));
        }
        PendingWrite::pending(receiver, receipt)
    }

    /// The six mailboxes in the order cpu, ppu, wram, cartridge, timer, apu.
    pub open spec fn mailboxes(&self) -> Seq<Sender<Command>> {
        seq![self.cpu, self.ppu, self.wram, self.cartridge, self.timer, self.apu]
    }

    /// Asks every component to stop: one `Stop` to each mailbox, in the order
    /// cpu, ppu, wram, cartridge, timer, apu (a component that is gone does
    /// not keep the rest from theirs). Returns the receipts of the sends.
    pub fn stop_components(&self) -> (receipts: Vec<SendReceipt<Command>>)
        ensures
            sent_in_order(receipts@, self.mailboxes(), |k: int, c: Command| c == Command::Stop),
    {
        let mut receipts: Vec<SendReceipt<Command>> = Vec::with_capacity(6);
        receipts.push(channel_send(&self.cpu, Command::Stop).1);
        receipts.push(channel_send(&self.ppu, Command::Stop).1);
        receipts.push(channel_send(&self.wram, Command::Stop).1);
        receipts.push(channel_send(&self.cartridge, Command::Stop).1);
        receipts.push(channel_send(&self.timer, Command::Stop).1);
        receipts.push(channel_send(&self.apu, Command::Stop).1);
        receipts
    }

    /// Another handle on the APU's mailbox.
    pub fn apu_sender(&self) -> Sender<Command> {
        self.apu.clone()
    }

    /// Sends `SaveState` to each component, in the order cpu, ppu, wram,
    /// cartridge, timer, apu, and returns the receivers its answers will come
    /// on, in the same order, with the receipts of the sends.
    pub fn save_state_components(&self) -> (r: (Vec<Receiver<Vec<u8>>>, Vec<SendReceipt<Command>>))
        ensures
            r.0.len() == 6,
            sent_in_order(r.1@, self.mailboxes(), |k: int, c: Command| c is SaveState),
    {
        let mut receivers: Vec<Receiver<Vec<u8>>> = Vec::with_capacity(6);
        let mut receipts: Vec<SendReceipt<Command>> = Vec::with_capacity(6);
        let (rx, receipt) = request_save(&self.cpu);
        receivers.push(rx);
        receipts.push(receipt);
        let (rx, receipt) = request_save(&self.ppu);
        receivers.push(rx);
        receipts.push(receipt);
        let (rx, receipt) = request_save(&self.wram);
        receivers.push(rx);
        receipts.push(receipt);
        let (rx, receipt) = request_save(&self.cartridge);
        receivers.push(rx);
        receipts.push(receipt);
        let (rx, receipt) = request_save(&self.timer);
        receivers.push(rx);
        receipts.push(receipt);
        let (rx, receipt) = request_save(&self.apu);
        receivers.push(rx);
        receipts.push(receipt);
        (receivers, receipts)
    }

    /// Sends `LoadState` with its blob to each component, in the order cpu,
    /// ppu, wram, cartridge, timer, apu. Returns the receipts of the sends.
    pub fn load_state_components(&self, blobs: [Vec<u8>; 6]) -> (receipts: Vec<SendReceipt<Command>>)
        ensures
            sent_in_order(receipts@, self.mailboxes(), |k: int, c: Command| loads(c, blobs@[k]@)),
    {
        let mut receipts: Vec<SendReceipt<Command>> = Vec::with_capacity(6);
        receipts.push(channel_send(&self.cpu, Command::LoadState(blobs[0].clone())).1);
        receipts.push(channel_send(&self.ppu, Command::LoadState(blobs[1].clone())).1);
        receipts.push(channel_send(&self.wram, Command::LoadState(blobs[2].clone())).1);
        receipts.push(channel_send(&self.cartridge, Command::LoadState(blobs[3].clone())).1);
        receipts.push(channel_send(&self.timer, Command::LoadState(blobs[4].clone())).1);
        receipts.push(channel_send(&self.apu, Command::LoadState(blobs[5].clone())).1);
        receipts
    }

    /// Asks the PPU for its OAM and LCD registers: one `RequestPpuFeatures`
    /// to its mailbox. The answer comes on the returned receiver; the receipt
    /// records the send.
    pub fn request_ppu_features(&self) -> (r: (Receiver<PpuFeatures>, SendReceipt<Command>))
        ensures
            r.1.sender() == self.ppu,
            r.1.message() is RequestPpuFeatures,
    {
        let (tx, rx) = new_channel();
        let (_, receipt) = channel_send(&self.ppu, Command::RequestPpuFeatures(tx));
        (rx, receipt)
    }

    /// Tells the PPU, WRAM, timer, cartridge and APU the hardware mode: one
    /// `SetHardwareMode` to each of those mailboxes, in that order, and none
    /// to the CPU's. Returns the receipts of the sends.
    pub fn propagate_hardware_mode(&self, hardware_mode: HardwareMode) -> (receipts: Vec<SendReceipt<Command>>)
        ensures
            sent_in_order(
                receipts@,
                seq![self.ppu, self.wram, self.timer, self.cartridge, self.apu],
                |k: int, c: Command| c == Command::SetHardwareMode(hardware_mode),
            ),
    {
        let mut receipts: Vec<SendReceipt<Command>> = Vec::with_capacity(5);
        receipts.push(channel_send(&self.ppu, Command::SetHardwareMode(hardware_mode)).1);
        receipts.push(channel_send(&self.wram, Command::SetHardwareMode(hardware_mode)).1);
        receipts.push(channel_send(&self.timer, Command::SetHardwareMode(hardware_mode)).1);
        receipts.push(channel_send(&self.cartridge, Command::SetHardwareMode(hardware_mode)).1);
        receipts.push(channel_send(&self.apu, Command::SetHardwareMode(hardware_mode)).1);
        receipts
    }

    fn route(&self, address: u16) -> (mailbox: Option<&Sender<Command>>)
        ensures
            match bus_target(address) {
                None => mailbox is None,
                Some(target) => mailbox == Some(&self.mailbox(target)),
            },
    {
        match target_of(address) {
            Some(BusTarget::Cartridge) => Some(&self.cartridge),
            Some(BusTarget::Ppu) => Some(&self.ppu),
            Some(BusTarget::Wram) => Some(&self.wram),
            Some(BusTarget::Timer) => Some(&self.timer),
            Some(BusTarget::Apu) => Some(&self.apu),
            Some(BusTarget::Cpu) => Some(&self.cpu),
            None => None,
        }
    }
}

/// The owner of `address` on the memory map (`bus_target`).
pub fn target_of(address: u16) -> (target: Option<BusTarget>)
    ensures
        target == bus_target(address),
{
    if address <= 0x7fff || (0xa000 <= address && address <= 0xbfff) || address == 0xff50 {
        Some(BusTarget::Cartridge)
    } else if (0x8000 <= address && address <= 0x9fff) || (0xfe00 <= address && address <= 0xfe9f)
        || (0xff40 <= address && address <= 0xff4b) || address == 0xff4f || (0xff51 <= address
        && address <= 0xff55) || (0xff68 <= address && address <= 0xff6b) {
        Some(BusTarget::Ppu)
    } else if (0xc000 <= address && address <= 0xfdff) || address == 0xff70 {
        Some(BusTarget::Wram)
    } else if 0xff04 <= address && address <= 0xff07 {
        Some(BusTarget::Timer)
    } else if (0xff10 <= address && address <= 0xff26) || (0xff30 <= address && address <= 0xff3f)
        || (0xff76 <= address && address <= 0xff77) {
        Some(BusTarget::Apu)
    } else if 0xfea0 <= address && address <= 0xfeff {
        None
    } else {
        Some(BusTarget::Cpu)
    }
}

/// Sends `SaveState` to one mailbox and returns where the blob will arrive,
/// with the receipt of the send.
fn request_save(mailbox: &Sender<Command>) -> (r: (Receiver<Vec<u8>>, SendReceipt<Command>))
    ensures
        r.1.sender() == *mailbox,
        r.1.message() is SaveState,
{
    let (tx, rx) = new_channel();
    let (_, receipt) = channel_send(mailbox, Command::SaveState(tx));
    (rx, receipt)
}

/// A read in flight on the bus.
pub struct PendingRead {
    state: PendingState<ReadResult>,
    receipt: Option<SendReceipt<Command>>,
}

impl PendingRead {
    /// Whether the answer is still to come from the component.
    pub closed spec fn is_pending(self) -> bool {
        self.state is Pending
    }

    /// The answer held at hand, if the read is not pending.
    pub closed spec fn ready_result(self) -> Option<ReadResult> {
        self.state.held()
    }

    /// The receipt of the request's send (the mailbox and the command handed
    /// to it, and whether it was taken), or `None` where no component owns
    /// the address and nothing was sent.
    pub closed spec fn sent(self) -> Option<SendReceipt<Command>> {
        self.receipt
    }

    fn ready(result: ReadResult, receipt: Option<SendReceipt<Command>>) -> (pending: Self)
        ensures
            !pending.is_pending(),
            pending.ready_result() == Some(result),
            pending.sent() == receipt,
    {
        PendingRead { state: PendingState::Ready(Some(result)), receipt }
    }

    fn pending(receiver: Receiver<ReadResult>, receipt: SendReceipt<Command>) -> (pending: Self)
        ensures
            pending.is_pending(),
            pending.ready_result() is None,
            pending.sent() == Some(receipt),
    {
        PendingRead { state: PendingState::Pending(receiver), receipt: Some(receipt) }
    }

    /// Takes the answer if there is one: the one at hand (once), or what the
    /// component has sent; a component that hung up answers `NoData`.
    pub fn try_take(&mut self) -> (result: Option<ReadResult>)
        ensures
            final(self).is_pending() == old(self).is_pending(),
            !old(self).is_pending() ==> result == old(self).ready_result()
                && final(self).ready_result() is None,
    {
        self.state.try_take(ReadResult::NoData)
    }
}

/// A write in flight on the bus.
pub struct PendingWrite {
    state: PendingState<WriteResult>,
    receipt: Option<SendReceipt<Command>>,
}

impl PendingWrite {
    /// Whether the answer is still to come from the component.
    pub closed spec fn is_pending(self) -> bool {
        self.state is Pending
    }

    /// The answer held at hand, if the write is not pending.
    pub closed spec fn ready_result(self) -> Option<WriteResult> {
        self.state.held()
    }

    /// The receipt of the request's send (the mailbox and the command handed
    /// to it, and whether it was taken), or `None` where no component owns
    /// the address and nothing was sent.
    pub closed spec fn sent(self) -> Option<SendReceipt<Command>> {
        self.receipt
    }

    fn ready(result: WriteResult, receipt: Option<SendReceipt<Command>>) -> (pending: Self)
        ensures
            !pending.is_pending(),
            pending.ready_result() == Some(result),
            pending.sent() == receipt,
    {
        PendingWrite { state: PendingState::Ready(Some(result)), receipt }
    }

    fn pending(receiver: Receiver<WriteResult>, receipt: SendReceipt<Command>) -> (pending: Self)
        ensures
            pending.is_pending(),
            pending.ready_result() is None,
            pending.sent() == Some(receipt),
    {
        PendingWrite { state: PendingState::Pending(receiver), receipt: Some(receipt) }
    }

    /// Takes the answer if there is one, as `PendingRead::try_take` does.
    pub fn try_take(&mut self) -> (result: Option<WriteResult>)
        ensures
            final(self).is_pending() == old(self).is_pending(),
            !old(self).is_pending() ==> result == old(self).ready_result()
                && final(self).ready_result() is None,
    {
        self.state.try_take(WriteResult::NoData)
    }
}

#[derive(Debug)]
#[verifier::reject_recursive_types(T)]
enum PendingState<T> {
    Ready(Option<T>),
    Pending(Receiver<T>),
}

/// What a poll of a pending answer yields: the value that arrived, nothing
/// yet, or `disconnected` where the component hung up.
pub fn received_answer<T>(received: Received<T>, disconnected: T) -> (answer: Option<T>)
    ensures
        match received {
            Received::Value(v) => answer == Some(v),
            Received::Empty => answer is None,
            Received::Disconnected => answer == Some(disconnected),
        },
{
    match received {
        Received::Value(v) => Some(v),
        Received::Empty => None,
        Received::Disconnected => Some(disconnected),
    }
}

impl<T: Copy> PendingState<T> {
    spec fn held(self) -> Option<T> {
        match self {
            PendingState::Ready(result) => result,
            PendingState::Pending(_) => None,
        }
    }

    fn try_take(&mut self, disconnected: T) -> (result: Option<T>)
        ensures
            (*final(self) is Pending) == (*old(self) is Pending),
            !(*old(self) is Pending) ==> result == old(self).held() && final(self).held() is None,
    {
        match self {
            PendingState::Ready(result) => result.take(),
            PendingState::Pending(receiver) => received_answer(channel_try_recv(receiver), disconnected),
        }
    }
}

} // verus!
