//! Tests of the non-blocking and blocking adapters against mock peripheral
//! drivers.

use can_bridge::can::{Can, Instance, TransmitStatus};
use can_bridge::errors::{ErrorKind, NbError, OverrunError, WouldBlock};
use can_bridge::frame::Frame;
use can_bridge::id::{Id, StandardId};

fn frame(raw: u16, byte: u8) -> Frame {
    let id = Id::Standard(StandardId::new(raw).unwrap());
    let data = can_bridge::data::Data::new(&[byte]).unwrap();
    Frame::new_data(id, data)
}

/// A mailbox that, when full, displaces the oldest pending frame to make
/// room, as a priority mailbox displaces a lower-priority frame.
struct EvictingBus {
    queued: Vec<Frame>,
    capacity: usize,
    rx: Vec<Frame>,
    overrun: bool,
}

impl EvictingBus {
    fn with_capacity(capacity: usize) -> EvictingBus {
        EvictingBus {
            queued: Vec::new(),
            capacity,
            rx: Vec::new(),
            overrun: false,
        }
    }
}

impl Instance for EvictingBus {
    fn is_transmitter_idle(&self) -> bool {
        true
    }

    fn submit(&mut self, frame: &Frame) -> Result<TransmitStatus, WouldBlock> {
        if self.queued.len() < self.capacity {
            self.queued.push(*frame);
            Ok(TransmitStatus {
                dequeued_frame: None,
            })
        } else {
            let evicted = self.queued.remove(0);
            self.queued.push(*frame);
            Ok(TransmitStatus {
                dequeued_frame: Some(evicted),
            })
        }
    }

    fn poll_receive(&mut self) -> Result<Frame, NbError<OverrunError>> {
        if self.overrun {
            Err(NbError::Other(OverrunError))
        } else if self.rx.is_empty() {
            Err(NbError::WouldBlock)
        } else {
            Ok(self.rx.remove(0))
        }
    }
}

/// A mailbox that never displaces anything: when full it reports "would
/// block".
struct RefusingBus {
    queued: Vec<Frame>,
    capacity: usize,
}

impl Instance for RefusingBus {
    fn is_transmitter_idle(&self) -> bool {
        self.queued.len() < self.capacity
    }

    fn submit(&mut self, frame: &Frame) -> Result<TransmitStatus, WouldBlock> {
        if self.queued.len() < self.capacity {
            self.queued.push(*frame);
            Ok(TransmitStatus {
                dequeued_frame: None,
            })
        } else {
            Err(WouldBlock)
        }
    }

    fn poll_receive(&mut self) -> Result<Frame, NbError<OverrunError>> {
        Err(NbError::WouldBlock)
    }
}

#[test]
fn transmit_reports_no_eviction_on_free_slot() {
    let mut can = Can::new(EvictingBus::with_capacity(2));
    assert_eq!(can.transmit(&frame(0x10, 1)), Ok(None));
    assert_eq!(can.transmit(&frame(0x20, 2)), Ok(None));
    let bus = can.free();
    assert_eq!(bus.queued, vec![frame(0x10, 1), frame(0x20, 2)]);
}

#[test]
fn transmit_surfaces_evicted_frame() {
    let mut can = Can::new(EvictingBus::with_capacity(1));
    let first = frame(0x10, 1);
    let second = frame(0x20, 2);
    assert_eq!(can.transmit(&first), Ok(None));
    // The displaced frame is exactly the one previously queued, not the
    // newly submitted one.
    assert_eq!(can.transmit(&second), Ok(Some(first)));
    let bus = can.free();
    assert_eq!(bus.queued, vec![second]);
}

#[test]
fn transmit_would_block_leaves_mailbox_unchanged() {
    let mut can = Can::new(RefusingBus {
        queued: vec![frame(0x10, 1)],
        capacity: 1,
    });
    assert!(!can.is_transmitter_idle());
    assert_eq!(can.transmit(&frame(0x20, 2)), Err(WouldBlock));
    let bus = can.free();
    assert_eq!(bus.queued, vec![frame(0x10, 1)]);
}

#[test]
fn blocking_transmit_masks_eviction() {
    let mut can = Can::new(EvictingBus::with_capacity(1));
    let first = frame(0x10, 1);
    let second = frame(0x20, 2);
    let third = frame(0x30, 3);
    // A sequence of blocking submissions: the second and third displace a
    // pending frame in the mailbox, yet each call reports plain success —
    // the unit result carries no channel for the evicted frame.
    assert!(can.is_transmitter_idle());
    can.transmit_blocking(&first);
    assert!(can.is_transmitter_idle());
    can.transmit_blocking(&second);
    assert!(can.is_transmitter_idle());
    can.transmit_blocking(&third);
    let bus = can.free();
    assert_eq!(bus.queued, vec![third]);
}

#[test]
fn receive_delivers_buffered_frames_in_order() {
    let mut bus = EvictingBus::with_capacity(1);
    bus.rx = vec![frame(0x11, 1), frame(0x22, 2)];
    let mut can = Can::new(bus);
    assert_eq!(can.receive(), Ok(frame(0x11, 1)));
    assert_eq!(can.receive(), Ok(frame(0x22, 2)));
    assert_eq!(can.receive(), Err(NbError::WouldBlock));
}

#[test]
fn receive_surfaces_overrun_untouched() {
    let mut bus = EvictingBus::with_capacity(1);
    bus.rx = vec![frame(0x11, 1)];
    bus.overrun = true;
    let mut can = Can::new(bus);
    // Overrun comes through as-is, with no partial frame alongside it.
    assert_eq!(can.receive(), Err(NbError::Other(OverrunError)));
}

#[test]
fn blocking_receive_delivers_frame() {
    let mut bus = EvictingBus::with_capacity(1);
    bus.rx = vec![frame(0x33, 3)];
    let mut can = Can::new(bus);
    assert_eq!(can.receive_blocking(), Ok(frame(0x33, 3)));
}

#[test]
fn blocking_receive_surfaces_overrun_untouched() {
    let mut bus = EvictingBus::with_capacity(1);
    bus.overrun = true;
    let mut can = Can::new(bus);
    assert_eq!(can.receive_blocking(), Err(OverrunError));
}

#[test]
fn overrun_maps_to_generic_overrun_kind() {
    assert_eq!(OverrunError.kind(), ErrorKind::Overrun);
}

#[test]
fn transmit_status_accessor_returns_dequeued_frame() {
    let status = TransmitStatus {
        dequeued_frame: Some(frame(0x44, 4)),
    };
    assert_eq!(status.dequeued_frame(), Some(frame(0x44, 4)));
    let status = TransmitStatus {
        dequeued_frame: None,
    };
    assert_eq!(status.dequeued_frame(), None);
}
