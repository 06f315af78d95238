//! The device's two storage slots, with a transactional inactive slot.
//!
//! A [`StorageBank`] holds the active (bootable) image and grants exclusive
//! write access to the inactive slot through an explicit transaction:
//! open, append chunks, then commit or abort. Only a commit ever changes the
//! active image; an abort discards the staged bytes and leaves the slot
//! eligible for a future attempt. At most one transaction can be open at a
//! time; a second open is rejected.

use vstd::prelude::*;

use crate::errors::UpdateError;

verus! {

/// The two slots of the device: the active image plus, while a transaction
/// is open, the bytes staged so far in the inactive slot.
pub struct StorageBank {
    active_image: Vec<u8>,
    staged_image: Vec<u8>,
    txn_open: bool,
}

impl StorageBank {
    /// The bytes of the currently bootable image.
    pub closed spec fn active(self) -> Seq<u8> {
        self.active_image@
    }

    /// Whether an update transaction is open over the inactive slot.
    pub closed spec fn transaction_open(self) -> bool {
        self.txn_open
    }

    /// The bytes appended to the open transaction so far.
    pub closed spec fn staged(self) -> Seq<u8> {
        self.staged_image@
    }

    /// A bank whose active slot holds `active_image`, with no transaction
    /// open.
    pub fn new(active_image: Vec<u8>) -> (bank: StorageBank)
        ensures
            bank.active() == active_image@,
            !bank.transaction_open(),
    {
        StorageBank { active_image, staged_image: Vec::new(), txn_open: false }
    }

    /// Reads the currently bootable image.
    pub fn active_image(&self) -> (r: &Vec<u8>)
        ensures
            r@ == self.active(),
    {
        &self.active_image
    }

    /// Whether an update transaction is currently open.
    pub fn is_transaction_open(&self) -> (r: bool)
        ensures
            r == self.transaction_open(),
    {
        self.txn_open
    }

    /// Opens an update transaction over the inactive slot. Exactly one may
    /// be open at a time: while one is open, a second open is rejected and
    /// the bank is left untouched.
    pub fn open_transaction(&mut self) -> (r: Result<(), UpdateError>)
        ensures
            old(self).transaction_open() ==> (r matches Err(e)
                && e == UpdateError::TransactionUnavailable
                && *final(self) == *old(self)),
            !old(self).transaction_open() ==> r is Ok
                && final(self).transaction_open()
                && final(self).staged() == Seq::<u8>::empty()
                && final(self).active() == old(self).active(),
    {
        if self.txn_open {
            Err(UpdateError::TransactionUnavailable)
        } else {
            self.txn_open = true;
            self.staged_image = Vec::new();
            Ok(())
        }
    }

    /// Appends one chunk's bytes to the open transaction. The active slot is
    /// untouched.
    pub fn write_chunk(&mut self, chunk: &[u8])
        requires
            old(self).transaction_open(),
        ensures
            final(self).transaction_open(),
            final(self).staged() == old(self).staged() + chunk@,
            final(self).active() == old(self).active(),
    {
        let mut i: usize = 0;
        while i < chunk.len()
            invariant
                self.txn_open == old(self).txn_open,
                self.active_image@ == old(self).active_image@,
                0 <= i <= chunk@.len(),
                self.staged_image@ == old(self).staged_image@ + chunk@.take(i as int),
            decreases chunk@.len() - i,
        {
            self.staged_image.push(chunk[i]);
            proof {
                assert(chunk@.take(i + 1) =~= chunk@.take(i as int).push(chunk@[i as int]));
            }
            i = i + 1;
        }
        proof {
            assert(chunk@.take(chunk@.len() as int) =~= chunk@);
        }
    }

    /// Commits the open transaction: the staged bytes become the active
    /// image and the transaction ends. Terminal and irreversible.
    pub fn commit(&mut self)
        requires
            old(self).transaction_open(),
        ensures
            !final(self).transaction_open(),
            final(self).active() == old(self).staged(),
    {
        self.active_image.clear();
        self.active_image.append(&mut self.staged_image);
        self.txn_open = false;
    }

    /// Aborts the open transaction: the staged bytes are discarded and the
    /// active image — the running version the device would boot — is left
    /// exactly as it was.
    pub fn abort(&mut self)
        requires
            old(self).transaction_open(),
        ensures
            !final(self).transaction_open(),
            final(self).active() == old(self).active(),
            final(self).staged() == Seq::<u8>::empty(),
    {
        self.staged_image.clear();
        self.txn_open = false;
    }
}

} // verus!
