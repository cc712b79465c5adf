//! The decode direction: compressed bytes go in, pictures come out.
//!
//! As for the encoder, each operation takes the status the component
//! reported for the call just made.
use vstd::prelude::*;

use crate::error::{Error, Result, NO_ERROR_EMPTY_QUEUE};
use crate::handle::teardown_step;
use crate::session::{Phase, Session};

pub use crate::handle::Handle;

verus! {

/// The decoder's parameter record, as far as this layer sets it.
#[derive(Debug, Clone, Copy, PartialEq, Eq, Structural)]
pub struct Configuration {
    pub max_picture_width: u32,
    pub max_picture_height: u32,
    pub max_bit_depth: u32,
    pub max_color_format: u32,
    pub frames_to_be_decoded: u64,
    pub eight_bit_output: u8,
    pub is_16bit_pipeline: u8,
}

/// Result of polling for a decoded picture.
#[derive(Debug, Clone, Copy, PartialEq, Eq, Structural)]
pub enum PictureStatus {
    /// A picture, with its stream and frame information, was written.
    Present,
    /// No picture is ready yet; the written records mean nothing.
    Empty,
}

/// A decoder session.
pub struct Decoder {
    session: Session,
}

impl Decoder {
    pub closed spec fn state(&self) -> Phase {
        self.session.state()
    }

    pub closed spec fn reference(&self) -> usize {
        self.session.reference()
    }

    /// A session before any component is opened.
    pub fn new() -> (r: Decoder)
        ensures
            r.state() == Phase::Uninitialized,
            r.reference() == 0,
    {
        Decoder { session: Session::new() }
    }

    pub fn phase(&self) -> (r: Phase)
        ensures
            r == self.state(),
    {
        self.session.phase()
    }

    /// The component reference owned, zero when none.
    pub fn as_ptr(&self) -> (r: usize)
        ensures
            r == self.reference(),
    {
        self.session.as_ptr()
    }

    /// Takes the outcome of opening the component (status, reference).
    pub fn init_default(&mut self, code: i32, raw: usize) -> (r: Result<()>)
        requires
            old(self).state() == Phase::Uninitialized,
            old(self).reference() == 0,
        ensures
            final(self).reference() == raw,
            code == 0 ==> r is Ok && final(self).state() == Phase::HandleOpen,
            code != 0 ==> r == Err::<(), Error>(Error::Init(code)) && final(self).state()
                == Phase::Failed,
    {
        self.session.open(code, raw)
    }

    /// Takes the status of committing parameters; the last accepted commit wins.
    pub fn set_parameter(&mut self, code: i32) -> (r: Result<()>)
        requires
            old(self).state() == Phase::HandleOpen || old(self).state() == Phase::Configured,
        ensures
            final(self).reference() == old(self).reference(),
            code == 0 ==> r is Ok && final(self).state() == Phase::Configured,
            code != 0 ==> r == Err::<(), Error>(Error::Parameter(code)) && final(self).state()
                == old(self).state(),
    {
        self.session.configure(code)
    }

    /// Takes the status of the one-time initialisation.
    pub fn init(&mut self, code: i32) -> (r: Result<()>)
        requires
            old(self).state() == Phase::HandleOpen || old(self).state() == Phase::Configured,
        ensures
            final(self).reference() == old(self).reference(),
            code == 0 ==> r is Ok && final(self).state() == Phase::Running,
            code != 0 ==> r == Err::<(), Error>(Error::Init(code)) && final(self).state()
                == Phase::Failed,
    {
        self.session.init(code)
    }

    /// Takes the status of handing compressed bytes over.
    pub fn send_packet(&mut self, code: i32) -> (r: Result<()>)
        requires
            old(self).state() == Phase::Running,
        ensures
            final(self).state() == old(self).state(),
            final(self).reference() == old(self).reference(),
            code == 0 <==> r is Ok,
            code != 0 ==> r == Err::<(), Error>(Error::Send(code)),
    {
        if code == 0 {
            Ok(())
        } else {
            Err(Error::Send(code))
        }
    }

    /// Takes the status of polling for a picture. The "no picture yet"
    /// status is reported as [`PictureStatus::Empty`], not as an error.
    pub fn get_picture(&mut self, code: i32) -> (r: Result<PictureStatus>)
        requires
            old(self).state() == Phase::Running,
        ensures
            final(self).state() == old(self).state(),
            final(self).reference() == old(self).reference(),
            code == 0 ==> r == Ok::<PictureStatus, Error>(PictureStatus::Present),
            code == NO_ERROR_EMPTY_QUEUE ==> r == Ok::<PictureStatus, Error>(PictureStatus::Empty),
            code != 0 && code != NO_ERROR_EMPTY_QUEUE ==> r == Err::<PictureStatus, Error>(
                Error::Receive(code),
            ),
    {
        if code == 0 {
            Ok(PictureStatus::Present)
        } else if code == NO_ERROR_EMPTY_QUEUE {
            Ok(PictureStatus::Empty)
        } else {
            Err(Error::Receive(code))
        }
    }

    /// Tears the session down. The first call returns the reference to
    /// release; any later call returns `None`.
    pub fn close(&mut self) -> (r: Option<usize>)
        ensures
            final(self).state() == Phase::Closed,
            (final(self).reference(), r) == teardown_step(old(self).reference()),
    {
        self.session.close()
    }
}

} // verus!
