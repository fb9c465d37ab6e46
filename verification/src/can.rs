//! Non-blocking and blocking transmit/receive adapters over a CAN
//! peripheral driver with a bounded, priority-ordered transmit mailbox.

use vstd::prelude::*;
use vstd::pervasive::unreached;
use crate::errors::{NbError, OverrunError, WouldBlock};
use crate::frame::Frame;

verus! {

/// The outcome of a successful mailbox submission: the frame was accepted,
/// and at most one previously queued lower-priority frame may have been
/// displaced to make room. The displaced frame is returned to the caller so
/// that no frame is silently lost.
#[derive(Clone, Copy, Debug, PartialEq, Eq)]
pub struct TransmitStatus {
    /// The frame evicted from the mailbox by this submission, if any.
    pub dequeued_frame: Option<Frame>,
}

impl TransmitStatus {
    /// Returns the frame this submission evicted from the mailbox, if any.
    pub fn dequeued_frame(self) -> (r: Option<Frame>)
        ensures
            r == self.dequeued_frame,
    {
        self.dequeued_frame
    }
}

/// The peripheral driver this layer adapts: the external collaborator that
/// programs the hardware. Its observable state is a bounded transmit
/// mailbox, a receive buffer, and a receive-overrun condition; each method
/// is a single atomic attempt against that state, which the adapter borrows
/// exclusively.
pub trait Instance: Sized {
    /// The frames pending in the transmit mailbox. A driver refines this
    /// model function; the default stands for a driver left unmodeled.
    open spec fn tx_queued(&self) -> Seq<Frame> {
        Seq::empty()
    }

    /// Whether at least one transmit mailbox slot is free. A driver
    /// refines this model function; the default stands for a driver left
    /// unmodeled.
    open spec fn tx_idle(&self) -> bool {
        false
    }

    /// The buffered incoming frames, next to deliver first. A driver
    /// refines this model function; the default stands for a driver left
    /// unmodeled.
    open spec fn rx_buffered(&self) -> Seq<Frame> {
        Seq::empty()
    }

    /// Whether the driver has recorded a receive overrun. A driver refines
    /// this model function; the default stands for a driver left
    /// unmodeled.
    open spec fn rx_overrun(&self) -> bool {
        false
    }

    /// Reports whether at least one transmit mailbox slot is free.
    fn is_transmitter_idle(&self) -> (r: bool)
        ensures
            r == self.tx_idle(),
    ;

    /// Attempts to place a frame into the transmit mailbox. On acceptance
    /// the returned status names the previously queued frame this
    /// submission displaced, if any; blocking means the mailbox is full and
    /// nothing changed. Transmission has no other failure mode.
    fn submit(&mut self, frame: &Frame) -> (r: Result<TransmitStatus, WouldBlock>)
        ensures
            match r {
                Ok(status) => match status.dequeued_frame {
                    Some(evicted) => exists|i: int|
                        0 <= i < old(self).tx_queued().len() && evicted == old(
                            self,
                        ).tx_queued()[i] && final(self).tx_queued() == old(self).tx_queued().remove(
                            i,
                        ).push(*frame),
                    None => final(self).tx_queued() == old(self).tx_queued().push(*frame),
                },
                Err(WouldBlock) => !old(self).tx_idle() && final(self).tx_queued() == old(
                    self,
                ).tx_queued(),
            },
    ;

    /// A single poll of the receive buffer: delivers the next buffered
    /// frame, blocks when nothing is pending, or reports overrun.
    fn poll_receive(&mut self) -> (r: Result<Frame, NbError<OverrunError>>)
        ensures
            match r {
                Ok(f) => {
                    &&& old(self).rx_buffered().len() > 0
                    &&& f == old(self).rx_buffered()[0]
                    &&& final(self).rx_buffered() == old(self).rx_buffered().drop_first()
                    &&& final(self).rx_overrun() == old(self).rx_overrun()
                },
                Err(NbError::WouldBlock) => {
                    &&& old(self).rx_buffered().len() == 0
                    &&& !old(self).rx_overrun()
                    &&& final(self).rx_buffered() == old(self).rx_buffered()
                    &&& final(self).rx_overrun() == old(self).rx_overrun()
                },
                Err(NbError::Other(e)) => e == OverrunError && old(self).rx_overrun(),
            },
    ;
}

/// Adapter exposing a peripheral driver's transmit mailbox and receive
/// buffer through a non-blocking (pollable) and a blocking frame-exchange
/// interface. It owns the driver instance exclusively.
pub struct Can<I> {
    instance: I,
}

impl<I: Instance> Can<I> {
    /// The frames pending in the transmit mailbox.
    pub closed spec fn mailbox_spec(&self) -> Seq<Frame> {
        self.instance.tx_queued()
    }

    /// Whether at least one transmit mailbox slot is free.
    pub closed spec fn idle_spec(&self) -> bool {
        self.instance.tx_idle()
    }

    /// The buffered incoming frames, next to deliver first.
    pub closed spec fn rx_spec(&self) -> Seq<Frame> {
        self.instance.rx_buffered()
    }

    /// Whether the driver has recorded a receive overrun.
    pub closed spec fn overrun_spec(&self) -> bool {
        self.instance.rx_overrun()
    }

    /// Wraps a peripheral driver instance.
    pub fn new(instance: I) -> (c: Can<I>)
        ensures
            c.mailbox_spec() == instance.tx_queued(),
            c.idle_spec() == instance.tx_idle(),
            c.rx_spec() == instance.rx_buffered(),
            c.overrun_spec() == instance.rx_overrun(),
    {
        Can { instance }
    }

    /// Releases the wrapped driver instance.
    pub fn free(self) -> (instance: I)
        ensures
            instance.tx_queued() == self.mailbox_spec(),
            instance.tx_idle() == self.idle_spec(),
            instance.rx_buffered() == self.rx_spec(),
            instance.rx_overrun() == self.overrun_spec(),
    {
        self.instance
    }

    /// Reports whether at least one transmit mailbox slot is free.
    pub fn is_transmitter_idle(&self) -> (r: bool)
        ensures
            r == self.idle_spec(),
    {
        self.instance.is_transmitter_idle()
    }

    /// Non-blocking submission: a single attempt against the mailbox. On
    /// acceptance it returns the frame this submission evicted, if any —
    /// exactly the frame that was previously queued, never the submitted
    /// one on a mailbox that did not hold it — so the caller can re-queue
    /// or account for a frame that did not go out. When no displacement
    /// occurs the evicted-frame slot is empty. "Would block" reports
    /// transient unavailability; no waiting occurs. There is no other
    /// failure mode.
    pub fn transmit(&mut self, frame: &Frame) -> (r: Result<Option<Frame>, WouldBlock>)
        ensures
            old(self).idle_spec() ==> r is Ok,
            match r {
                Ok(Some(evicted)) => exists|i: int|
                    0 <= i < old(self).mailbox_spec().len() && evicted == old(
                        self,
                    ).mailbox_spec()[i] && final(self).mailbox_spec() == old(
                        self,
                    ).mailbox_spec().remove(i).push(*frame),
                Ok(None) => final(self).mailbox_spec() == old(self).mailbox_spec().push(*frame),
                Err(WouldBlock) => !old(self).idle_spec() && final(self).mailbox_spec() == old(
                    self,
                ).mailbox_spec(),
            },
    {
        match self.instance.submit(frame) {
            Ok(status) => {
                proof {
                    if let Some(evicted) = status.dequeued_frame {
                        let k = choose|i: int|
                            0 <= i < old(self).instance.tx_queued().len() && evicted == old(
                                self,
                            ).instance.tx_queued()[i] && self.instance.tx_queued() == old(
                                self,
                            ).instance.tx_queued().remove(i).push(*frame);
                        assert(0 <= k < old(self).mailbox_spec().len() && evicted == old(
                            self,
                        ).mailbox_spec()[k] && self.mailbox_spec() == old(
                            self,
                        ).mailbox_spec().remove(k).push(*frame));
                    }
                }
                Ok(status.dequeued_frame())
            },
            Err(WouldBlock) => Err(WouldBlock),
        }
    }

    /// Non-blocking receive: a single poll of the receive buffer. It
    /// delivers the next buffered frame, reports "would block" when nothing
    /// is pending, or surfaces the driver's overrun untouched — with no
    /// partial frame alongside it.
    pub fn receive(&mut self) -> (r: Result<Frame, NbError<OverrunError>>)
        ensures
            old(self).rx_spec().len() > 0 && !old(self).overrun_spec() ==> r is Ok,
            match r {
                Ok(f) => {
                    &&& old(self).rx_spec().len() > 0
                    &&& f == old(self).rx_spec()[0]
                    &&& final(self).rx_spec() == old(self).rx_spec().drop_first()
                    &&& final(self).overrun_spec() == old(self).overrun_spec()
                },
                Err(NbError::WouldBlock) => {
                    &&& old(self).rx_spec().len() == 0
                    &&& !old(self).overrun_spec()
                    &&& final(self).rx_spec() == old(self).rx_spec()
                    &&& final(self).overrun_spec() == old(self).overrun_spec()
                },
                Err(NbError::Other(e)) => e == OverrunError && old(self).overrun_spec(),
            },
    {
        self.instance.poll_receive()
    }

    /// Blocking transmit: accepts the frame unconditionally — there is no
    /// failure channel, and eviction information is deliberately discarded,
    /// since the blocking contract has no channel for it either. The
    /// blocking contract waits, with no timeout, until the mailbox reports
    /// a free slot; a wait without bound cannot return a verified result,
    /// so this core takes the free slot as its precondition and the caller
    /// performs the spin, polling [`Self::is_transmitter_idle`] until it
    /// reports true. With a slot free, submission provably cannot block.
    pub fn transmit_blocking(&mut self, frame: &Frame)
        requires
            old(self).idle_spec(),
        ensures
            final(self).mailbox_spec() == old(self).mailbox_spec().push(*frame) || exists|i: int|
                0 <= i < old(self).mailbox_spec().len() && final(self).mailbox_spec() == old(
                    self,
                ).mailbox_spec().remove(i).push(*frame),
    {
        match self.instance.submit(frame) {
            Ok(_) => (),
            Err(WouldBlock) => unreached(),
        }
    }

    /// Blocking receive: delivers the next buffered frame, or surfaces the
    /// driver's overrun immediately and untouched — overrun is not retried,
    /// and no partial frame comes with it. The blocking contract polls,
    /// with no timeout, until something is pending; a wait without bound
    /// cannot return a verified result, so this core takes "a frame is
    /// buffered or overrun is recorded" as its precondition and the caller
    /// performs the spin, repeating the non-blocking [`Self::receive`] on
    /// "would block". With something pending, the poll provably cannot
    /// block.
    pub fn receive_blocking(&mut self) -> (r: Result<Frame, OverrunError>)
        requires
            old(self).rx_spec().len() > 0 || old(self).overrun_spec(),
        ensures
            match r {
                Ok(f) => {
                    &&& old(self).rx_spec().len() > 0
                    &&& f == old(self).rx_spec()[0]
                    &&& final(self).rx_spec() == old(self).rx_spec().drop_first()
                    &&& final(self).overrun_spec() == old(self).overrun_spec()
                },
                Err(e) => e == OverrunError && old(self).overrun_spec(),
            },
    {
        match self.instance.poll_receive() {
            Ok(frame) => Ok(frame),
            Err(NbError::WouldBlock) => unreached(),
            Err(NbError::Other(e)) => Err(e),
        }
    }
}

} // verus!
