//! The encode direction: pictures go in, packets come out.
//!
//! Each operation here takes the status that the component reported for
//! the call the caller just made, and decides the session's next state and
//! the caller's result.
use vstd::prelude::*;

use vstd::string::StringSliceAdditionalSpecFns;

use crate::error::{Error, Result, ERROR_BAD_PARAMETER, NO_ERROR_EMPTY_QUEUE};
use crate::handle::teardown_step;
use crate::session::{Phase, Session};

pub use crate::config::Configuration;
pub use crate::handle::Handle;

verus! {

/// A packet handed out by the component. It stays the component's until it
/// is given back through [`Encoder::release`], which consumes it: a packet
/// cannot be copied, so it cannot be given back twice.
pub struct Packet {
    ptr: usize,
}

impl View for Packet {
    type V = usize;

    closed spec fn view(&self) -> usize {
        self.ptr
    }
}

impl Packet {
    /// The address of the component's buffer header.
    pub fn as_ptr(&self) -> (r: usize)
        ensures
            r == self@,
    {
        self.ptr
    }
}

/// The stream header (sequence header) packet, released on its own path.
pub struct StreamHeader {
    ptr: usize,
}

impl View for StreamHeader {
    type V = usize;

    closed spec fn view(&self) -> usize {
        self.ptr
    }
}

impl StreamHeader {
    /// The address of the component's buffer header.
    pub fn as_ptr(&self) -> (r: usize)
        ensures
            r == self@,
    {
        self.ptr
    }
}

/// An encoder session.
pub struct Encoder {
    session: Session,
    outstanding: u64,
}

impl Encoder {
    pub closed spec fn state(&self) -> Phase {
        self.session.state()
    }

    pub closed spec fn reference(&self) -> usize {
        self.session.reference()
    }

    /// Packets handed out and not yet given back.
    pub closed spec fn in_flight(&self) -> nat {
        self.outstanding as nat
    }

    /// A session before any component is opened.
    pub fn new() -> (r: Encoder)
        ensures
            r.state() == Phase::Uninitialized,
            r.reference() == 0,
            r.in_flight() == 0,
    {
        Encoder { session: Session::new(), outstanding: 0 }
    }

    pub fn phase(&self) -> (r: Phase)
        ensures
            r == self.state(),
    {
        self.session.phase()
    }

    /// The component reference owned, zero when none.
    pub fn as_ptr(&self) -> (r: usize)
        ensures
            r == self.reference(),
    {
        self.session.as_ptr()
    }

    /// Packets handed out and not yet given back.
    pub fn outstanding(&self) -> (r: u64)
        ensures
            r == self.in_flight(),
    {
        self.outstanding
    }

    /// Takes the outcome of opening the component (status, reference).
    pub fn init_default(&mut self, code: i32, raw: usize) -> (r: Result<()>)
        requires
            old(self).state() == Phase::Uninitialized,
            old(self).reference() == 0,
        ensures
            final(self).reference() == raw,
            final(self).in_flight() == old(self).in_flight(),
            code == 0 ==> r is Ok && final(self).state() == Phase::HandleOpen,
            code != 0 ==> r == Err::<(), Error>(Error::Init(code)) && final(self).state()
                == Phase::Failed,
    {
        self.session.open(code, raw)
    }

    /// Takes the status of committing parameters; the last accepted commit wins.
    pub fn set_parameter(&mut self, code: i32) -> (r: Result<()>)
        requires
            old(self).state() == Phase::HandleOpen || old(self).state() == Phase::Configured,
        ensures
            final(self).reference() == old(self).reference(),
            final(self).in_flight() == old(self).in_flight(),
            code == 0 ==> r is Ok && final(self).state() == Phase::Configured,
            code != 0 ==> r == Err::<(), Error>(Error::Parameter(code)) && final(self).state()
                == old(self).state(),
    {
        self.session.configure(code)
    }

    /// Takes the status of the component's name/value parameter parser.
    pub fn parse_parameter(code: i32) -> (r: Result<()>)
        ensures
            code == 0 <==> r is Ok,
            code != 0 ==> r == Err::<(), Error>(Error::Parameter(code)),
    {
        if code == 0 {
            Ok(())
        } else {
            Err(Error::Parameter(code))
        }
    }

    /// Whether a name and a value can be handed to the parameter parser as
    /// null-terminated strings: neither may hold a zero byte.
    pub fn check_parameter_str(name: &str, value: &str) -> (r: Result<()>)
        ensures
            r is Ok <==> !has_nul(name.spec_bytes()) && !has_nul(value.spec_bytes()),
            r is Err ==> r == Err::<(), Error>(Error::Parameter(ERROR_BAD_PARAMETER)),
    {
        if find_nul(name.as_bytes()) || find_nul(value.as_bytes()) {
            Err(Error::Parameter(ERROR_BAD_PARAMETER))
        } else {
            Ok(())
        }
    }

    /// Takes the status of the one-time initialisation.
    pub fn init(&mut self, code: i32) -> (r: Result<()>)
        requires
            old(self).state() == Phase::HandleOpen || old(self).state() == Phase::Configured,
        ensures
            final(self).reference() == old(self).reference(),
            final(self).in_flight() == old(self).in_flight(),
            code == 0 ==> r is Ok && final(self).state() == Phase::Running,
            code != 0 ==> r == Err::<(), Error>(Error::Init(code)) && final(self).state()
                == Phase::Failed,
    {
        self.session.init(code)
    }

    /// Takes the status of handing a picture over.
    pub fn send_picture(&mut self, code: i32) -> (r: Result<()>)
        requires
            old(self).state() == Phase::Running,
        ensures
            final(self).state() == old(self).state(),
            final(self).reference() == old(self).reference(),
            final(self).in_flight() == old(self).in_flight(),
            code == 0 <==> r is Ok,
            code != 0 ==> r == Err::<(), Error>(Error::Send(code)),
    {
        if code == 0 {
            Ok(())
        } else {
            Err(Error::Send(code))
        }
    }

    /// Takes the status of sending the end-of-stream buffer. Once it is
    /// accepted the session drains.
    pub fn send_eos(&mut self, code: i32) -> (r: Result<()>)
        requires
            old(self).state() == Phase::Running,
        ensures
            final(self).reference() == old(self).reference(),
            final(self).in_flight() == old(self).in_flight(),
            code == 0 ==> r is Ok && final(self).state() == Phase::Draining,
            code != 0 ==> r == Err::<(), Error>(Error::Send(code)) && final(self).state()
                == Phase::Running,
    {
        if code == 0 {
            self.session.start_draining();
            Ok(())
        } else {
            Err(Error::Send(code))
        }
    }

    /// The end-of-input flag every packet poll must carry: set once the
    /// end-of-stream buffer has been accepted.
    pub fn end_of_input(&self) -> (r: bool)
        ensures
            r == (self.state() == Phase::Draining),
    {
        match self.session.phase() {
            Phase::Draining => true,
            _ => false,
        }
    }

    /// Takes the outcome of polling for a packet with `end_of_input`: the
    /// status and the buffer address written. A zero status hands out a
    /// packet with that address; the empty-queue status yields `None`, not
    /// an error.
    pub fn get_packet(&mut self, end_of_input: bool, code: i32, packet: usize) -> (r: Result<
        Option<Packet>,
    >)
        requires
            old(self).state() == Phase::Running || old(self).state() == Phase::Draining,
            old(self).state() == Phase::Draining ==> end_of_input,
            old(self).in_flight() < u64::MAX,
        ensures
            final(self).state() == old(self).state(),
            final(self).reference() == old(self).reference(),
            code == 0 ==> (r matches Ok(Some(p)) && p@ == packet) && final(self).in_flight()
                == old(self).in_flight() + 1,
            code != 0 ==> final(self).in_flight() == old(self).in_flight(),
            code == NO_ERROR_EMPTY_QUEUE ==> r matches Ok(None),
            code != 0 && code != NO_ERROR_EMPTY_QUEUE ==> r == Err::<Option<Packet>, Error>(
                Error::Receive(code),
            ),
    {
        if code == 0 {
            self.outstanding = self.outstanding + 1;
            Ok(Some(Packet { ptr: packet }))
        } else if code == NO_ERROR_EMPTY_QUEUE {
            Ok(None)
        } else {
            Err(Error::Receive(code))
        }
    }

    /// Gives a packet back: consumes it and returns the buffer address that
    /// the component must now release.
    pub fn release(&mut self, packet: Packet) -> (r: usize)
        requires
            old(self).in_flight() > 0,
        ensures
            r == packet@,
            final(self).state() == old(self).state(),
            final(self).reference() == old(self).reference(),
            final(self).in_flight() == old(self).in_flight() - 1,
    {
        self.outstanding = self.outstanding - 1;
        packet.ptr
    }

    /// Takes the outcome of asking for the stream header.
    pub fn get_stream_header(&mut self, code: i32, packet: usize) -> (r: Result<StreamHeader>)
        requires
            old(self).state() == Phase::Running || old(self).state() == Phase::Draining,
        ensures
            final(self).state() == old(self).state(),
            final(self).reference() == old(self).reference(),
            final(self).in_flight() == old(self).in_flight(),
            code == 0 ==> (r matches Ok(h) && h@ == packet),
            code != 0 ==> r == Err::<StreamHeader, Error>(Error::Receive(code)),
    {
        if code != 0 {
            Err(Error::Receive(code))
        } else {
            Ok(StreamHeader { ptr: packet })
        }
    }

    /// Takes the status of releasing the stream header, which the caller
    /// released through its address (`header.as_ptr()`). The header is
    /// consumed either way, so it cannot be released twice.
    pub fn stream_header_release(&mut self, header: StreamHeader, code: i32) -> (r: Result<()>)
        ensures
            final(self).state() == old(self).state(),
            final(self).reference() == old(self).reference(),
            final(self).in_flight() == old(self).in_flight(),
            code == 0 <==> r is Ok,
            code != 0 ==> r == Err::<(), Error>(Error::Code(code)),
    {
        let _ = header;
        crate::error::ok(code)
    }

    /// Takes the status of asking for a reconstructed picture: `true` when
    /// one was written, `false` when none is ready.
    pub fn get_recon(&mut self, code: i32) -> (r: Result<bool>)
        requires
            old(self).state() == Phase::Running || old(self).state() == Phase::Draining,
        ensures
            final(self).state() == old(self).state(),
            final(self).reference() == old(self).reference(),
            final(self).in_flight() == old(self).in_flight(),
            code == 0 ==> r == Ok::<bool, Error>(true),
            code == NO_ERROR_EMPTY_QUEUE ==> r == Ok::<bool, Error>(false),
            code != 0 && code != NO_ERROR_EMPTY_QUEUE ==> r == Err::<bool, Error>(
                Error::Receive(code),
            ),
    {
        if code == 0 {
            Ok(true)
        } else if code == NO_ERROR_EMPTY_QUEUE {
            Ok(false)
        } else {
            Err(Error::Receive(code))
        }
    }

    /// Tears the session down. The first call returns the reference to
    /// deinitialise and release; any later call returns `None`.
    pub fn close(&mut self) -> (r: Option<usize>)
        ensures
            final(self).state() == Phase::Closed,
            final(self).in_flight() == old(self).in_flight(),
            (final(self).reference(), r) == teardown_step(old(self).reference()),
    {
        self.session.close()
    }
}

/// Whether `s` holds a zero byte.
pub open spec fn has_nul(s: Seq<u8>) -> bool {
    exists|i: int| 0 <= i < s.len() && s[i] == 0
}

fn find_nul(s: &[u8]) -> (r: bool)
    ensures
        r == has_nul(s@),
{
    let mut i: usize = 0;
    while i < s.len()
        invariant
            i <= s@.len(),
            forall|j: int| 0 <= j < i ==> s@[j] != 0,
        decreases s@.len() - i,
    {
        if s[i] == 0 {
            return true;
        }
        i = i + 1;
    }
    false
}

/// One step of iterating over packets: a packet or an error is an item,
/// an empty queue ends the iteration.
pub fn packet_item(polled: Result<Option<Packet>>) -> (r: Option<Result<Packet>>)
    ensures
        polled matches Ok(Some(p)) ==> (r matches Some(Ok(q)) && q@ == p@),
        polled matches Ok(None) ==> r is None,
        polled matches Err(e) ==> r == Some(Err::<Packet, Error>(e)),
{
    match polled {
        Ok(Some(p)) => Some(Ok(p)),
        Ok(None) => None,
        Err(e) => Some(Err(e)),
    }
}

} // verus!
