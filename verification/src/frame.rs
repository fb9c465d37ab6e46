//! CAN frames: data frames carrying a payload, and remote-request frames
//! carrying only a declared length.

use vstd::prelude::*;
use crate::data::{Data, MAX_PAYLOAD};
use crate::id::{GenericId, Id};

verus! {

/// Largest data length code a frame can declare.
pub const MAX_DLC: u8 = 8;

#[derive(Clone, Copy, Debug, PartialEq, Eq)]
enum FrameKind {
    Data { id: Id, data: Data },
    Remote { id: Id, dlc: u8 },
}

/// A CAN frame: either a data frame (identifier plus payload, with the data
/// length code equal to the payload length) or a remote-request frame
/// (identifier plus a declared length of at most eight, no payload).
/// Frames are immutable once constructed, and the checked constructors are
/// the only way to build one.
#[derive(Clone, Copy, Debug, PartialEq, Eq)]
pub struct Frame {
    kind: FrameKind,
}

impl Frame {
    #[verifier::type_invariant]
    closed spec fn type_inv(self) -> bool {
        match self.kind {
            FrameKind::Data { .. } => true,
            FrameKind::Remote { id, dlc } => dlc <= MAX_DLC,
        }
    }

    /// Whether this is a remote-request frame.
    pub closed spec fn is_remote_spec(self) -> bool {
        self.kind matches FrameKind::Remote { .. }
    }

    /// The frame's identifier.
    pub closed spec fn id_spec(self) -> Id {
        match self.kind {
            FrameKind::Data { id, .. } => id,
            FrameKind::Remote { id, .. } => id,
        }
    }

    /// The data length code: payload length for data frames, declared
    /// length for remote frames.
    pub closed spec fn dlc_spec(self) -> nat {
        match self.kind {
            FrameKind::Data { data, .. } => data@.len(),
            FrameKind::Remote { dlc, .. } => dlc as nat,
        }
    }

    /// The carried payload bytes: the payload for data frames, and the
    /// empty sequence for remote frames, which carry none.
    pub closed spec fn data_spec(self) -> Seq<u8> {
        match self.kind {
            FrameKind::Data { data, .. } => data@,
            FrameKind::Remote { .. } => Seq::empty(),
        }
    }

    /// Builds a data frame; the data length code is the payload length.
    pub fn new_data(id: Id, data: Data) -> (f: Frame)
        ensures
            !f.is_remote_spec(),
            f.id_spec() == id,
            f.data_spec() == data@,
            f.dlc_spec() == data@.len(),
    {
        Frame { kind: FrameKind::Data { id, data } }
    }

    /// Builds a remote-request frame with the given declared length;
    /// rejects lengths above eight.
    pub fn new_remote(id: Id, dlc: u8) -> (r: Option<Frame>)
        ensures
            r is Some <==> dlc <= MAX_DLC,
            r matches Some(f) ==> {
                &&& f.is_remote_spec()
                &&& f.id_spec() == id
                &&& f.dlc_spec() == dlc
                &&& f.data_spec() == Seq::<u8>::empty()
            },
    {
        if dlc <= MAX_DLC {
            Some(Frame { kind: FrameKind::Remote { id, dlc } })
        } else {
            None
        }
    }

    /// Whether the frame's identifier uses the extended format.
    pub fn is_extended(&self) -> (r: bool)
        ensures
            r == self.id_spec().is_extended_spec(),
    {
        match &self.kind {
            FrameKind::Data { id, .. } => id.is_extended(),
            FrameKind::Remote { id, .. } => id.is_extended(),
        }
    }

    /// Whether this is a remote-request frame.
    pub fn is_remote_frame(&self) -> (r: bool)
        ensures
            r == self.is_remote_spec(),
    {
        match &self.kind {
            FrameKind::Data { .. } => false,
            FrameKind::Remote { .. } => true,
        }
    }

    /// Returns the frame's identifier.
    pub fn id(&self) -> (r: Id)
        ensures
            r == self.id_spec(),
    {
        match &self.kind {
            FrameKind::Data { id, .. } => *id,
            FrameKind::Remote { id, .. } => *id,
        }
    }

    /// Returns the data length code; for a data frame it equals the payload
    /// length, and it never exceeds eight.
    pub fn dlc(&self) -> (r: u8)
        ensures
            r == self.dlc_spec(),
            !self.is_remote_spec() ==> r == self.data_spec().len(),
            r <= MAX_DLC,
    {
        proof {
            use_type_invariant(self);
        }
        match &self.kind {
            FrameKind::Data { data, .. } => data.len() as u8,
            FrameKind::Remote { dlc, .. } => *dlc,
        }
    }

    /// Builds a data frame from the generic representation: the identifier
    /// is converted losslessly, and the payload is rejected — no frame —
    /// when it exceeds eight bytes.
    pub fn from_generic_data(generic: GenericId, bytes: &[u8]) -> (r: Option<Frame>)
        ensures
            r is Some <==> bytes@.len() <= MAX_PAYLOAD,
            r matches Some(f) ==> {
                &&& !f.is_remote_spec()
                &&& f.id_spec() == Id::from_generic_spec(generic)
                &&& f.data_spec() == bytes@
                &&& f.dlc_spec() == bytes@.len()
            },
    {
        let id = Id::from_generic(generic);
        match Data::new(bytes) {
            Some(data) => Some(Frame::new_data(id, data)),
            None => None,
        }
    }

    /// Builds a remote frame from the generic representation: the
    /// identifier is converted losslessly, and the requested length is
    /// rejected — no frame — when it exceeds eight.
    pub fn from_generic_remote(generic: GenericId, dlc: usize) -> (r: Option<Frame>)
        ensures
            r is Some <==> dlc <= MAX_DLC,
            r matches Some(f) ==> {
                &&& f.is_remote_spec()
                &&& f.id_spec() == Id::from_generic_spec(generic)
                &&& f.dlc_spec() == dlc
                &&& f.data_spec() == Seq::<u8>::empty()
            },
    {
        let id = Id::from_generic(generic);
        if dlc <= MAX_DLC as usize {
            Frame::new_remote(id, dlc as u8)
        } else {
            None
        }
    }

    /// Returns the frame's identifier in the generic representation: same
    /// format, same raw value.
    pub fn generic_id(&self) -> (r: GenericId)
        ensures
            r == self.id_spec().to_generic_spec(),
    {
        self.id().to_generic()
    }

    /// Returns the payload bytes. A remote frame carries no payload, so the
    /// result is a zero-length slice there — never a failure.
    pub fn data(&self) -> (r: &[u8])
        ensures
            r@ == self.data_spec(),
            self.is_remote_spec() ==> r@.len() == 0,
            !self.is_remote_spec() ==> r@.len() == self.dlc_spec(),
    {
        match &self.kind {
            FrameKind::Data { data, .. } => data.as_slice(),
            FrameKind::Remote { .. } => &[],
        }
    }
}

} // verus!
