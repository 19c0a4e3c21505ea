use vstd::prelude::*;

use crate::error::StoreError;
use crate::identity::Identity;

verus! {

/// A top-level record aggregating documents: the identity that controls it
/// and a counter of the live documents created against it.
///
/// The counter is maintained incrementally — incremented when a document is
/// created against the collection, decremented when one is deleted — and is
/// never recomputed by scanning.
#[derive(Clone, Copy, Debug)]
pub struct Collection {
    /// The controlling principal. Set once at creation, immutable thereafter.
    pub authority: Identity,
    /// Number of currently-live documents counted against this collection.
    pub count: u64,
}

/// A record holding fixed-size encoded content and its own controlling
/// identity, counted against one collection.
///
/// A document's authority is independent of its parent collection's: a
/// collection's authority does not automatically control its documents.
#[derive(Clone, Copy, Debug)]
pub struct Document {
    /// The controlling principal for this document alone.
    pub authority: Identity,
    /// The fixed 32-byte content buffer; see [`crate::encode::encoded`].
    pub content: [u8; 32],
}

impl Collection {
    /// Fill a storage slot with a fresh collection: `count` zero, `authority`
    /// as given. Refused with `Allocation` when the slot already holds a
    /// record; the slot is then left unchanged.
    pub fn create(slot: &mut Option<Collection>, authority: Identity) -> (r: Result<
        (),
        StoreError,
    >)
        ensures
            r is Ok <==> (*old(slot)) is None,
            r is Ok ==> *final(slot) == (Some(Collection { authority, count: 0u64 })),
            r is Err ==> *final(slot) == *old(slot) && r->Err_0 == StoreError::Allocation,
    {
        if slot.is_some() {
            return Err(StoreError::Allocation);
        }
        *slot = Some(Collection { authority, count: 0 });
        Ok(())
    }

    /// Count one more live document. Refused with `CounterOverflow` at the
    /// top of the counter's width instead of wrapping; the collection is then
    /// left unchanged.
    pub fn increment(&mut self) -> (r: Result<(), StoreError>)
        ensures
            r is Ok <==> old(self).count < u64::MAX,
            r is Ok ==> *final(self) == (Collection {
                authority: old(self).authority,
                count: (old(self).count + 1) as u64,
            }),
            r is Err ==> *final(self) == *old(self) && r->Err_0 == StoreError::CounterOverflow,
    {
        if self.count == u64::MAX {
            return Err(StoreError::CounterOverflow);
        }
        self.count = self.count + 1;
        Ok(())
    }

    /// Count one live document fewer. Refused with `CounterUnderflow` at zero
    /// instead of wrapping; the collection is then left unchanged.
    pub fn decrement(&mut self) -> (r: Result<(), StoreError>)
        ensures
            r is Ok <==> old(self).count > 0,
            r is Ok ==> *final(self) == (Collection {
                authority: old(self).authority,
                count: (old(self).count - 1) as u64,
            }),
            r is Err ==> *final(self) == *old(self) && r->Err_0 == StoreError::CounterUnderflow,
    {
        if self.count == 0 {
            return Err(StoreError::CounterUnderflow);
        }
        self.count = self.count - 1;
        Ok(())
    }
}

impl Document {
    /// Fill a storage slot with a fresh document holding the given authority
    /// and encoded content. Refused with `Allocation` when the slot already
    /// holds a record; the slot is then left unchanged.
    pub fn create(slot: &mut Option<Document>, authority: Identity, content: [u8; 32]) -> (r:
        Result<(), StoreError>)
        ensures
            r is Ok <==> (*old(slot)) is None,
            r is Ok ==> *final(slot) == (Some(Document { authority, content })),
            r is Err ==> *final(slot) == *old(slot) && r->Err_0 == StoreError::Allocation,
    {
        if slot.is_some() {
            return Err(StoreError::Allocation);
        }
        *slot = Some(Document { authority, content });
        Ok(())
    }

    /// Overwrite the content buffer in place. The document's authority is
    /// not changed.
    pub fn update(&mut self, content: [u8; 32])
        ensures
            *final(self) == (Document { authority: old(self).authority, content }),
    {
        self.content = content;
    }

    /// Release the record: the slot no longer holds a document, so any later
    /// read of it finds nothing.
    pub fn delete(slot: &mut Option<Document>)
        requires
            (*old(slot)) is Some,
        ensures
            *final(slot) is None,
    {
        *slot = None;
    }
}

} // verus!
