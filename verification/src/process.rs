//! The slot that holds the handle of the one managed process.

use vstd::prelude::*;

verus! {

/// What the slot records of a held process besides its handle.
pub struct ProcessView {
    /// The process id given by the operating system.
    pub pid: u32,
    /// Whether an input channel to the process was wired at launch.
    pub stdin: bool,
}

/// A process that was launched for the service: its handle, its process
/// id, and which of its three standard streams were wired as pipes.
#[derive(Debug)]
pub struct Spawned<H> {
    pub handle: H,
    pub pid: u32,
    pub stdin: bool,
    pub stdout: bool,
    pub stderr: bool,
}

impl<H> Spawned<H> {
    /// What the slot records when it takes this process over.
    pub open spec fn process(self) -> ProcessView {
        ProcessView { pid: self.pid, stdin: self.stdin }
    }
}

/// Either no process, or the handle of the one running process with what
/// is known of it. `H` is the handle type of the embedding application.
pub enum ProcessSlot<H> {
    Empty,
    Running { handle: H, pid: u32, stdin: bool },
}

impl<H> View for ProcessSlot<H> {
    type V = Option<ProcessView>;

    open spec fn view(&self) -> Option<ProcessView> {
        match self {
            ProcessSlot::Empty => None,
            ProcessSlot::Running { pid, stdin, .. } => Some(
                ProcessView { pid: *pid, stdin: *stdin },
            ),
        }
    }
}

impl<H> ProcessSlot<H> {
    /// The handle in the slot, if there is one.
    pub open spec fn handle(self) -> Option<H> {
        match self {
            ProcessSlot::Empty => None,
            ProcessSlot::Running { handle, .. } => Some(handle),
        }
    }

    pub fn new() -> (slot: Self)
        ensures
            slot@ is None,
            slot.handle() is None,
    {
        ProcessSlot::Empty
    }

    pub fn is_empty(&self) -> (empty: bool)
        ensures
            empty == (self@ is None),
    {
        match self {
            ProcessSlot::Empty => true,
            ProcessSlot::Running { .. } => false,
        }
    }

    pub fn pid(&self) -> (pid: Option<u32>)
        ensures
            pid == match self@ {
                Some(process) => Some(process.pid),
                None => None,
            },
    {
        match self {
            ProcessSlot::Empty => None,
            ProcessSlot::Running { pid, .. } => Some(*pid),
        }
    }

    /// Whether a process is held and its input channel was wired.
    pub fn has_stdin(&self) -> (wired: bool)
        ensures
            wired == (self@ matches Some(process) && process.stdin),
    {
        match self {
            ProcessSlot::Empty => false,
            ProcessSlot::Running { stdin, .. } => *stdin,
        }
    }

    /// Empties the slot and hands out the handle that was in it. Of any
    /// number of callers that find a process in the slot one after the
    /// other, only the first gets the handle.
    pub fn take(&mut self) -> (taken: Option<H>)
        ensures
            final(self)@ is None,
            final(self).handle() is None,
            taken == old(self).handle(),
    {
        let mut previous = ProcessSlot::Empty;
        core::mem::swap(self, &mut previous);
        match previous {
            ProcessSlot::Empty => None,
            ProcessSlot::Running { handle, .. } => Some(handle),
        }
    }

    /// Puts a launched process into the slot if the slot is empty. If a
    /// process is already held the slot stays as it is and the handle
    /// comes back.
    pub fn adopt(&mut self, handle: H, pid: u32, stdin: bool) -> (rejected: Option<H>)
        ensures
            old(self)@ is None ==> {
                &&& rejected is None
                &&& final(self)@ == Some(ProcessView { pid, stdin })
                &&& final(self).handle() == Some(handle)
            },
            old(self)@ is Some ==> {
                &&& rejected == Some(handle)
                &&& *final(self) == *old(self)
            },
    {
        if self.is_empty() {
            *self = ProcessSlot::Running { handle, pid, stdin };
            None
        } else {
            Some(handle)
        }
    }

    /// Access to the held handle, for the operations that only its owner
    /// can perform on it. What the slot records of the process does not
    /// change through it.
    pub fn handle_mut(&mut self) -> (held: Option<&mut H>)
        ensures
            match held {
                None => *old(self) is Empty && *final(self) == *old(self),
                Some(handle) => {
                    &&& old(self).handle() == Some(*handle)
                    &&& final(self).handle() == Some(*final(handle))
                    &&& final(self)@ == old(self)@
                },
            },
    {
        match self {
            ProcessSlot::Empty => None,
            ProcessSlot::Running { handle, .. } => Some(handle),
        }
    }
}

} // verus!
