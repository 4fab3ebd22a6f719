//! A queue of commands on their way to the device.
//!
//! The crate does not write to the bus. A request to the display yields a
//! [`Transfer`]; the caller takes the command at its head, writes its bytes
//! to the device, and reports what the bus answered. A failed write empties
//! the queue, so nothing that was queued behind it is ever written.

use crate::command::Command;
use crate::error::Error;
use std::collections::VecDeque;
use vstd::prelude::*;

verus! {

/// Commands for one device, in the order in which they are to be written.
#[derive(Debug, PartialEq, Eq)]
pub struct Transfer {
    address: u8,
    queue: VecDeque<Command>,
}

impl Transfer {
    /// The bus address of the device that the commands are for.
    pub closed spec fn target(&self) -> u8 {
        self.address
    }

    /// The commands that are still to be written, the next one first.
    pub closed spec fn pending(&self) -> Seq<Command> {
        self.queue@
    }

    /// This transfer is for the device at `address` and holds exactly
    /// `commands`.
    pub open spec fn carries(&self, address: u8, commands: Seq<Command>) -> bool {
        self.target() == address && self.pending() =~= commands
    }

    /// An empty transfer for the device at `address`.
    pub fn new(address: u8) -> (transfer: Transfer)
        ensures
            transfer.carries(address, Seq::empty()),
    {
        Transfer { address, queue: VecDeque::new() }
    }

    /// Queues `command` behind the commands that are pending.
    pub fn push(&mut self, command: Command)
        ensures
            final(self).carries(old(self).target(), old(self).pending().push(command)),
    {
        self.queue.push_back(command);
    }

    /// Queues the commands of `other` behind the commands that are pending.
    /// They go to the device of this transfer.
    pub fn append(&mut self, other: Transfer)
        ensures
            final(self).carries(old(self).target(), old(self).pending() + other.pending()),
    {
        let mut other = other;
        self.queue.append(&mut other.queue);
    }

    /// The bus address to write to.
    pub fn address(&self) -> (address: u8)
        ensures
            address == self.target(),
    {
        self.address
    }

    /// The number of commands that are still to be written.
    pub fn len(&self) -> (len: usize)
        ensures
            len == self.pending().len(),
    {
        proof {
            vstd::std_specs::vecdeque::axiom_spec_len(&self.queue);
        }
        self.queue.len()
    }

    /// Whether nothing is left to write.
    pub fn is_done(&self) -> (done: bool)
        ensures
            done == (self.pending().len() == 0),
    {
        self.len() == 0
    }

    /// The command to write next, if any is left.
    pub fn next_command(&self) -> (next: Option<Command>)
        ensures
            next == if self.pending().len() > 0 {
                Some(self.pending()[0])
            } else {
                None
            },
    {
        if self.len() > 0 {
            Some(self.queue[0])
        } else {
            None
        }
    }

    /// The commands that are still to be written, the next one first.
    pub fn remaining(&self) -> (commands: Vec<Command>)
        ensures
            commands@ == self.pending(),
    {
        let count = self.len();
        let mut commands: Vec<Command> = Vec::new();
        let mut i: usize = 0;
        while i < count
            invariant
                i <= count,
                count == self.pending().len(),
                commands@ == self.pending().take(i as int),
            decreases count - i,
        {
            commands.push(self.queue[i]);
            i = i + 1;
        }
        commands
    }

    /// Takes note of what the bus answered to the write of the command at
    /// the head of the queue.
    ///
    /// After a write that went through, the command leaves the queue. After
    /// one that failed, the queue is emptied and the bus error is handed
    /// back, unchanged, as [`Error::I2C`].
    pub fn complete<E>(&mut self, outcome: Result<(), E>) -> (r: Result<(), Error<E>>)
        ensures
            final(self).target() == old(self).target(),
            match outcome {
                Ok(_) => r is Ok && final(self).pending() == written(old(self).pending()),
                Err(cause) => {
                    &&& r == Err::<(), Error<E>>(Error::I2C(cause))
                    &&& final(self).pending().len() == 0
                },
            },
    {
        match outcome {
            Ok(_) => {
                let _ = self.queue.pop_front();
                Ok(())
            },
            Err(cause) => {
                self.queue.clear();
                Err(Error::I2C(cause))
            },
        }
    }
}

/// What is left of a queue once the command at its head was written.
pub open spec fn written(pending: Seq<Command>) -> Seq<Command> {
    if pending.len() > 0 {
        pending.subrange(1, pending.len() as int)
    } else {
        pending
    }
}

} // verus!
