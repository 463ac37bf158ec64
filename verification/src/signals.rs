//! The signal manager's decision logic: which signals the process manages,
//! and what each received signal number means.
//!
//! The surrounding process blocks the managed set process-wide, opens a
//! signal descriptor for it and reads fixed-size info records; the mapping
//! from the received signal numbers to intentions is made here.  The block
//! deliberately outlives the manager, so that a second termination signal
//! cannot kill the process before cleanup completes.

use vstd::prelude::*;

verus! {

/// The signal number of `SIGHUP` on Linux.
pub const SIGNAL_NUMBER_HANGUP: i32 = 1;

/// The signal number of `SIGINT` on Linux.
pub const SIGNAL_NUMBER_INTERRUPT: i32 = 2;

/// The signal number of `SIGTERM` on Linux.
pub const SIGNAL_NUMBER_TERMINATE: i32 = 15;

/// A failure to install the signal manager; fatal at startup.
#[derive(Clone, Debug, PartialEq, Eq)]
pub enum InstallError {
    CouldNotBlockSignals { errno: i32 },
    CouldNotCreateFileDescriptor { errno: i32 },
}

/// A failure to receive a signal info record: the read failed, or it
/// returned something other than one whole record.
#[derive(Clone, Debug, PartialEq, Eq)]
pub enum ReceiveError {
    CouldNotReadFromFileDescriptor { errno: i32 },
    InvalidReadFromFileDescriptor,
}

/// What a received signal asks the process to do.
#[derive(Clone, Copy, Debug, PartialEq, Eq, Structural)]
pub enum SignalIntention {
    Terminate,
    ReloadConfiguration,
}

/// The intention a signal number maps to: termination and interruption both
/// mean terminate, hang-up asks for a configuration reload, and every other
/// signal is read and discarded.
pub open spec fn spec_signal_intention(signal_number: u32) -> Option<SignalIntention> {
    if signal_number == SIGNAL_NUMBER_TERMINATE as u32 {
        Some(SignalIntention::Terminate)
    } else if signal_number == SIGNAL_NUMBER_INTERRUPT as u32 {
        Some(SignalIntention::Terminate)
    } else if signal_number == SIGNAL_NUMBER_HANGUP as u32 {
        Some(SignalIntention::ReloadConfiguration)
    } else {
        None
    }
}

/// The first managed signal in a batch of received signal numbers, if any.
pub open spec fn spec_next_signal(received: Seq<u32>) -> Option<SignalIntention>
    decreases received.len(),
{
    if received.len() == 0 {
        None
    } else {
        match spec_signal_intention(received[0]) {
            Some(intention) => Some(intention),
            None => spec_next_signal(received.drop_first()),
        }
    }
}

/// The signal manager: it owns the set of managed signal numbers.
pub struct SignalManager {
    pub managed_signals: Vec<i32>,
}

impl SignalManager {
    /// The manager watches exactly termination, interruption and hang-up.
    pub open spec fn wf(&self) -> bool {
        self.managed_signals@ == seq![
            SIGNAL_NUMBER_TERMINATE,
            SIGNAL_NUMBER_INTERRUPT,
            SIGNAL_NUMBER_HANGUP,
        ]
    }

    /// Install the manager.  The caller blocks exactly the signal numbers in
    /// `managed_signals` process-wide and opens its signal descriptor for
    /// the same set, in that order.
    pub fn install() -> (manager: SignalManager)
        ensures
            manager.wf(),
    {
        let mut managed_signals: Vec<i32> = Vec::new();
        managed_signals.push(SIGNAL_NUMBER_TERMINATE);
        managed_signals.push(SIGNAL_NUMBER_INTERRUPT);
        managed_signals.push(SIGNAL_NUMBER_HANGUP);
        proof {
            assert(managed_signals@ =~= seq![
                SIGNAL_NUMBER_TERMINATE,
                SIGNAL_NUMBER_INTERRUPT,
                SIGNAL_NUMBER_HANGUP,
            ]);
        }
        SignalManager { managed_signals }
    }

    /// The signal numbers to block and watch, in order.
    pub fn signal_numbers(&self) -> (numbers: Vec<i32>)
        ensures
            numbers@ == self.managed_signals@,
    {
        let mut numbers: Vec<i32> = Vec::new();
        let mut index: usize = 0;
        while index < self.managed_signals.len()
            invariant
                index <= self.managed_signals.len(),
                numbers@ == self.managed_signals@.take(index as int),
            decreases self.managed_signals.len() - index,
        {
            numbers.push(self.managed_signals[index]);
            proof {
                assert(self.managed_signals@.take(index as int + 1)
                    =~= self.managed_signals@.take(index as int).push(
                    self.managed_signals@[index as int],
                ));
            }
            index = index + 1;
        }
        proof {
            assert(self.managed_signals@.take(self.managed_signals@.len() as int)
                =~= self.managed_signals@);
        }
        numbers
    }

    /// The intention of one received signal number, if it is managed.
    pub fn intention_of(&self, signal_number: u32) -> (intention: Option<SignalIntention>)
        requires
            self.wf(),
        ensures
            intention == spec_signal_intention(signal_number),
    {
        if signal_number == SIGNAL_NUMBER_TERMINATE as u32 {
            Some(SignalIntention::Terminate)
        } else if signal_number == SIGNAL_NUMBER_INTERRUPT as u32 {
            Some(SignalIntention::Terminate)
        } else if signal_number == SIGNAL_NUMBER_HANGUP as u32 {
            Some(SignalIntention::ReloadConfiguration)
        } else {
            None
        }
    }

    /// The first managed signal in the batch of signal numbers read this
    /// tick: unknown signals are read and discarded.
    pub fn next_signal(&self, received: &Vec<u32>) -> (intention: Option<SignalIntention>)
        requires
            self.wf(),
        ensures
            intention == spec_next_signal(received@),
    {
        let mut index: usize = 0;
        proof {
            assert(received@.skip(0) =~= received@);
        }
        while index < received.len()
            invariant
                self.wf(),
                index <= received.len(),
                spec_next_signal(received@) == spec_next_signal(received@.skip(index as int)),
                forall|k: int|
                    0 <= k < index ==> spec_signal_intention(#[trigger] received@[k]) is None,
            decreases received.len() - index,
        {
            proof {
                assert(received@.skip(index as int)[0] == received@[index as int]);
                assert(received@.skip(index as int).drop_first() =~= received@.skip(
                    index as int + 1,
                ));
            }
            let found = self.intention_of(received[index]);
            if found.is_some() {
                return found;
            }
            index = index + 1;
        }
        proof {
            assert(received@.skip(received@.len() as int) =~= Seq::<u32>::empty());
        }
        None
    }
}

} // verus!
