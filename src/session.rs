//! The lifecycle shared by encoder and decoder sessions: open a handle,
//! commit parameters, initialise, run, tear down.
use vstd::prelude::*;

use crate::error::{Error, Result};
use crate::handle::{teardown_step, Handle};

verus! {

/// Where a session stands in its lifecycle.
#[derive(Debug, Clone, Copy, PartialEq, Eq, Structural)]
pub enum Phase {
    /// No component has been opened yet.
    Uninitialized,
    /// A component is open and holds its default parameters.
    HandleOpen,
    /// Parameters have been committed at least once.
    Configured,
    /// Initialised; buffers may be exchanged.
    Running,
    /// End of input has been signalled; output is being flushed.
    Draining,
    /// Opening or initialisation failed; only teardown remains.
    Failed,
    /// Torn down. Terminal.
    Closed,
}

/// A session's lifecycle state together with the handle it owns.
pub struct Session {
    handle: Handle,
    phase: Phase,
}

impl Session {
    /// The current phase.
    pub closed spec fn state(&self) -> Phase {
        self.phase
    }

    /// The native reference owned, zero when none.
    pub closed spec fn reference(&self) -> usize {
        self.handle@
    }

    /// A session before any component is opened.
    pub fn new() -> (r: Session)
        ensures
            r.state() == Phase::Uninitialized,
            r.reference() == 0,
    {
        Session { handle: Handle::new(), phase: Phase::Uninitialized }
    }

    pub fn phase(&self) -> (r: Phase)
        ensures
            r == self.state(),
    {
        self.phase
    }

    /// The native reference owned, zero when none.
    pub fn as_ptr(&self) -> (r: usize)
        ensures
            r == self.reference(),
    {
        self.handle.as_ptr()
    }

    /// Takes the outcome of opening a component: its status and the
    /// reference it wrote. A zero status is success; whatever reference came
    /// back is kept, so that teardown releases it (a null one releases
    /// nothing).
    pub fn open(&mut self, code: i32, raw: usize) -> (r: Result<()>)
        requires
            old(self).state() == Phase::Uninitialized,
            old(self).reference() == 0,
        ensures
            final(self).reference() == raw,
            code == 0 ==> r is Ok && final(self).state() == Phase::HandleOpen,
            code != 0 ==> r == Err::<(), Error>(Error::Init(code)) && final(self).state()
                == Phase::Failed,
    {
        *self.handle.as_mut_ptr() = raw;
        if code != 0 {
            self.phase = Phase::Failed;
            Err(Error::Init(code))
        } else {
            self.phase = Phase::HandleOpen;
            Ok(())
        }
    }

    /// Takes the status of committing parameters. A rejection leaves the
    /// session where it was, so corrected parameters can be tried again.
    pub fn configure(&mut self, code: i32) -> (r: Result<()>)
        requires
            old(self).state() == Phase::HandleOpen || old(self).state() == Phase::Configured,
        ensures
            final(self).reference() == old(self).reference(),
            code == 0 ==> r is Ok && final(self).state() == Phase::Configured,
            code != 0 ==> r == Err::<(), Error>(Error::Parameter(code)) && final(self).state()
                == old(self).state(),
    {
        if code == 0 {
            self.phase = Phase::Configured;
            Ok(())
        } else {
            Err(Error::Parameter(code))
        }
    }

    /// Takes the status of the one-time initialisation, which runs with the
    /// parameters last committed, or with the component's defaults when none
    /// were. Failure is fatal for the session.
    pub fn init(&mut self, code: i32) -> (r: Result<()>)
        requires
            old(self).state() == Phase::HandleOpen || old(self).state() == Phase::Configured,
        ensures
            final(self).reference() == old(self).reference(),
            code == 0 ==> r is Ok && final(self).state() == Phase::Running,
            code != 0 ==> r == Err::<(), Error>(Error::Init(code)) && final(self).state()
                == Phase::Failed,
    {
        if code == 0 {
            self.phase = Phase::Running;
            Ok(())
        } else {
            self.phase = Phase::Failed;
            Err(Error::Init(code))
        }
    }

    /// Marks end of input as signalled.
    pub fn start_draining(&mut self)
        requires
            old(self).state() == Phase::Running,
        ensures
            final(self).reference() == old(self).reference(),
            final(self).state() == Phase::Draining,
    {
        self.phase = Phase::Draining;
    }

    /// Tears the session down from any phase. The first call hands out the
    /// reference to release, if any; later calls hand out nothing.
    pub fn close(&mut self) -> (r: Option<usize>)
        ensures
            final(self).state() == Phase::Closed,
            (final(self).reference(), r) == teardown_step(old(self).reference()),
    {
        self.phase = Phase::Closed;
        self.handle.release()
    }
}

} // verus!
