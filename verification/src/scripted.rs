//! A bus implementation driven by a prepared script, for exercising the
//! driver without hardware.
//!
//! A [`ScriptedBus`] answers each transaction from a queue of [`Reply`]
//! values and records everything it performs. A host test runs the driver
//! against it and then compares [`ScriptedBus::performed`] with the
//! transactions it expected. The implementation is verified against the
//! [`I2cBus`] contract, so the recorded log and the ghost transaction log
//! always agree.

use vstd::prelude::*;

verus! {

use vstd::slice::slice_to_vec;
use crate::bus::{I2cBus, Transaction};

/// What a [`ScriptedBus`] answers to its next transaction.
#[derive(Debug, Clone, Copy, PartialEq)]
pub enum Reply {
    /// The transaction is a write; accept it.
    Accept,
    /// The transaction is a write-read; answer it with these two bytes.
    Data(u8, u8),
    /// Refuse the transaction with this error code.
    Fail(u8),
}

/// Error code a [`ScriptedBus`] returns once its script has run out.
pub const SCRIPT_EXHAUSTED: u8 = 0xFE;

/// Error code a [`ScriptedBus`] returns when the scripted reply does not
/// fit the kind of transaction attempted.
pub const REPLY_MISMATCH: u8 = 0xFD;

/// One transaction a [`ScriptedBus`] has completed, in executable form.
#[derive(Debug, Clone, PartialEq)]
pub enum Performed {
    /// A completed write.
    Write {
        /// The device address written to.
        device: u8,
        /// The bytes sent.
        bytes: Vec<u8>,
    },
    /// A completed write-read.
    WriteRead {
        /// The device address addressed.
        device: u8,
        /// The command bytes sent.
        command: Vec<u8>,
        /// The bytes read back.
        response: Vec<u8>,
    },
}

impl View for Performed {
    type V = Transaction;

    open spec fn view(&self) -> Transaction {
        match self {
            Performed::Write { device, bytes } => Transaction::Write {
                device: *device,
                bytes: bytes@,
            },
            Performed::WriteRead { device, command, response } => Transaction::WriteRead {
                device: *device,
                command: command@,
                response: response@,
            },
        }
    }
}

/// The abstract transactions a sequence of performed ones stands for.
pub open spec fn transactions_of(log: Seq<Performed>) -> Seq<Transaction> {
    log.map(|i: int, p: Performed| p@)
}

/// A bus that answers from a prepared script of replies, in order, and
/// records every transaction it completes.
pub struct ScriptedBus {
    replies: Vec<Reply>,
    log: Vec<Performed>,
}

impl ScriptedBus {
    /// The scripted replies not consumed yet, next first.
    pub closed spec fn pending_replies(&self) -> Seq<Reply> {
        self.replies@
    }

    /// The transactions completed so far, in executable form.
    pub closed spec fn performed_log(&self) -> Seq<Performed> {
        self.log@
    }

    /// A bus that will answer with `replies`, in order.
    pub fn new(replies: Vec<Reply>) -> (bus: ScriptedBus)
        ensures
            bus.transactions() == Seq::<Transaction>::empty(),
            bus.pending_replies() == replies@,
    {
        let bus = ScriptedBus { replies, log: Vec::new() };
        proof {
            assert(transactions_of(bus.log@) =~= Seq::<Transaction>::empty());
        }
        bus
    }

    /// The transactions completed so far, oldest first.
    pub fn performed(&self) -> (log: &Vec<Performed>)
        ensures
            log@ == self.performed_log(),
            transactions_of(log@) == self.transactions(),
    {
        &self.log
    }

    /// Whether the whole script has been consumed.
    pub fn exhausted(&self) -> (done: bool)
        ensures
            done == (self.pending_replies().len() == 0),
    {
        self.replies.is_empty()
    }

    /// Take the next scripted reply, if any is left.
    fn next_reply(&mut self) -> (reply: Option<Reply>)
        ensures
            final(self).performed_log() == old(self).performed_log(),
            old(self).pending_replies().len() == 0 ==> reply is None
                && final(self).pending_replies() == old(self).pending_replies(),
            old(self).pending_replies().len() > 0 ==> reply == Some(
                old(self).pending_replies()[0],
            ) && final(self).pending_replies() == old(self).pending_replies().skip(1),
    {
        if self.replies.is_empty() {
            None
        } else {
            let reply = self.replies.remove(0);
            proof {
                assert(self.replies@ =~= old(self).replies@.skip(1));
            }
            Some(reply)
        }
    }
}

impl I2cBus for ScriptedBus {
    type Error = u8;

    open spec fn transactions(&self) -> Seq<Transaction> {
        transactions_of(self.performed_log())
    }

    fn write(&mut self, address: u8, bytes: &[u8]) -> (res: Result<(), u8>)
        ensures
            old(self).pending_replies().len() == 0 ==> res == Err::<(), u8>(SCRIPT_EXHAUSTED)
                && final(self).pending_replies() == old(self).pending_replies(),
            old(self).pending_replies().len() > 0 ==> final(self).pending_replies() == old(
                self,
            ).pending_replies().skip(1) && (match old(self).pending_replies()[0] {
                Reply::Accept => res is Ok,
                Reply::Data(_, _) => res == Err::<(), u8>(REPLY_MISMATCH),
                Reply::Fail(code) => res == Err::<(), u8>(code),
            }),
    {
        match self.next_reply() {
            None => Err(SCRIPT_EXHAUSTED),
            Some(Reply::Accept) => {
                let record = Performed::Write { device: address, bytes: slice_to_vec(bytes) };
                self.log.push(record);
                proof {
                    assert(transactions_of(self.log@) =~= transactions_of(old(self).log@).push(
                        Transaction::Write { device: address, bytes: bytes@ },
                    ));
                }
                Ok(())
            },
            Some(Reply::Data(_, _)) => Err(REPLY_MISMATCH),
            Some(Reply::Fail(code)) => Err(code),
        }
    }

    fn write_read(&mut self, address: u8, command: &[u8]) -> (res: Result<[u8; 2], u8>)
        ensures
            old(self).pending_replies().len() == 0 ==> res == Err::<[u8; 2], u8>(SCRIPT_EXHAUSTED)
                && final(self).pending_replies() == old(self).pending_replies(),
            old(self).pending_replies().len() > 0 ==> final(self).pending_replies() == old(
                self,
            ).pending_replies().skip(1) && (match old(self).pending_replies()[0] {
                Reply::Data(high, low) => res matches Ok(data) && data@ == seq![high, low],
                Reply::Accept => res == Err::<[u8; 2], u8>(REPLY_MISMATCH),
                Reply::Fail(code) => res == Err::<[u8; 2], u8>(code),
            }),
    {
        match self.next_reply() {
            None => Err(SCRIPT_EXHAUSTED),
            Some(Reply::Data(high, low)) => {
                let mut response: Vec<u8> = Vec::new();
                response.push(high);
                response.push(low);
                proof {
                    assert(response@ =~= seq![high, low]);
                }
                let record = Performed::WriteRead {
                    device: address,
                    command: slice_to_vec(command),
                    response,
                };
                self.log.push(record);
                let data: [u8; 2] = [high, low];
                proof {
                    assert(data@ =~= seq![high, low]);
                    assert(transactions_of(self.log@) =~~= transactions_of(old(self).log@).push(
                        Transaction::WriteRead {
                            device: address,
                            command: command@,
                            response: data@,
                        },
                    ));
                }
                Ok(data)
            },
            Some(Reply::Accept) => Err(REPLY_MISMATCH),
            Some(Reply::Fail(code)) => Err(code),
        }
    }
}

} // verus!
