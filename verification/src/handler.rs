use vstd::prelude::*;

use crate::encode::encoded;
use crate::encode::parse_content;
use crate::encode::CONTENT_CAPACITY;
use crate::error::StoreError;
use crate::identity::lemma_identity_eq;
use crate::identity::Identity;
use crate::record::Collection;
use crate::record::Document;

verus! {

/// The caller of an operation: the key it claims and whether the host's
/// signature check authenticated it as the transaction's initiator.
#[derive(Clone, Copy, Debug)]
pub struct Signer {
    pub key: Identity,
    pub signed: bool,
}

/// Records referenced by a create-collection call: the storage slot the new
/// collection is to occupy (`None` while unallocated) and the caller.
pub struct CreateCollection {
    pub collection: Option<Collection>,
    pub authority: Signer,
}

/// Records referenced by a create-document call: the slot the new document is
/// to occupy, the caller, and the collection the document counts against.
pub struct CreateDocument {
    pub document: Option<Document>,
    pub authority: Signer,
    pub collection: Collection,
}

/// Records referenced by an update-document call. The collection is
/// referenced but not otherwise checked against the document.
pub struct UpdateDocument {
    pub document: Document,
    pub authority: Signer,
    pub collection: Collection,
}

/// Records referenced by a delete-document call: the slot holding the
/// document to destroy, the caller, and the collection to count it off.
pub struct DeleteDocument {
    pub document: Option<Document>,
    pub authority: Signer,
    pub collection: Collection,
}

/// Create a collection controlled by the caller, with its document counter
/// at zero.
///
/// Refused with `Authorization` when the caller did not sign, and with
/// `Allocation` when the slot already holds a collection; on any refusal the
/// referenced records are left unchanged.
pub fn create_collection(ctx: &mut CreateCollection) -> (r: Result<(), StoreError>)
    ensures
        r is Ok <==> old(ctx).authority.signed && old(ctx).collection is None,
        r is Ok ==> final(ctx).collection == (Some(
            Collection { authority: old(ctx).authority.key, count: 0u64 },
        )),
        r is Err ==> final(ctx).collection == old(ctx).collection,
        final(ctx).authority == old(ctx).authority,
        !old(ctx).authority.signed ==> r == Err::<(), StoreError>(StoreError::Authorization),
        old(ctx).authority.signed && old(ctx).collection is Some ==> r == Err::<(), StoreError>(
            StoreError::Allocation,
        ),
{
    if !ctx.authority.signed {
        return Err(StoreError::Authorization);
    }
    Collection::create(&mut ctx.collection, ctx.authority.key)
}

/// Create a document against a collection: the collection's counter goes up
/// by one and the slot is filled with a document that holds the caller's key
/// and the encoded content.
///
/// The collection's own authority plays no part: any signing caller may
/// create documents against any existing collection. Refused with
/// `Authorization` when the caller did not sign, `Allocation` when the
/// document slot is already occupied, `CounterOverflow` at the top of the
/// counter's width, and `ContentTooLarge` for content over 32 bytes; on any
/// refusal the referenced records are left unchanged.
pub fn create_document(ctx: &mut CreateDocument, content: &Vec<u8>) -> (r: Result<(), StoreError>)
    ensures
        r is Ok <==> old(ctx).authority.signed && old(ctx).document is None && old(
            ctx,
        ).collection.count < u64::MAX && content@.len() <= CONTENT_CAPACITY,
        r is Ok ==> final(ctx).collection == (Collection {
            authority: old(ctx).collection.authority,
            count: (old(ctx).collection.count + 1) as u64,
        }),
        r is Ok ==> final(ctx).document is Some && final(ctx).document->Some_0.authority == old(
            ctx,
        ).authority.key && final(ctx).document->Some_0.content@ == encoded(content@),
        r is Err ==> final(ctx).document == old(ctx).document && final(ctx).collection == old(
            ctx,
        ).collection,
        final(ctx).authority == old(ctx).authority,
        !old(ctx).authority.signed ==> r == Err::<(), StoreError>(StoreError::Authorization),
        old(ctx).authority.signed && old(ctx).document is Some ==> r == Err::<(), StoreError>(
            StoreError::Allocation,
        ),
        old(ctx).authority.signed && old(ctx).document is None && old(ctx).collection.count
            == u64::MAX ==> r == Err::<(), StoreError>(StoreError::CounterOverflow),
        old(ctx).authority.signed && old(ctx).document is None && old(ctx).collection.count
            < u64::MAX && content@.len() > CONTENT_CAPACITY ==> r == Err::<(), StoreError>(
            StoreError::ContentTooLarge,
        ),
{
    if !ctx.authority.signed {
        return Err(StoreError::Authorization);
    }
    if ctx.document.is_some() {
        return Err(StoreError::Allocation);
    }
    if ctx.collection.count == u64::MAX {
        return Err(StoreError::CounterOverflow);
    }
    let data = match parse_content(content) {
        Ok(data) => data,
        Err(e) => {
            return Err(e);
        },
    };
    match ctx.collection.increment() {
        Ok(()) => {},
        Err(e) => {
            return Err(e);
        },
    }
    match Document::create(&mut ctx.document, ctx.authority.key, data) {
        Ok(()) => {},
        Err(e) => {
            return Err(e);
        },
    }
    Ok(())
}

/// Overwrite a document's content with the encoding of new content. The
/// document's authority and the referenced collection are not changed.
///
/// Refused with `Authorization` when the caller did not sign or is not the
/// document's authority, and with `ContentTooLarge` for content over 32
/// bytes; on any refusal the referenced records are left unchanged.
pub fn update_document(ctx: &mut UpdateDocument, content: &Vec<u8>) -> (r: Result<(), StoreError>)
    ensures
        r is Ok <==> old(ctx).authority.signed && old(ctx).document.authority == old(
            ctx,
        ).authority.key && content@.len() <= CONTENT_CAPACITY,
        r is Ok ==> final(ctx).document == (Document {
            authority: old(ctx).document.authority,
            content: final(ctx).document.content,
        }) && final(ctx).document.content@ == encoded(content@),
        r is Err ==> final(ctx).document == old(ctx).document,
        final(ctx).collection == old(ctx).collection,
        final(ctx).authority == old(ctx).authority,
        !old(ctx).authority.signed ==> r == Err::<(), StoreError>(StoreError::Authorization),
        old(ctx).authority.signed && old(ctx).document.authority != old(ctx).authority.key ==> r
            == Err::<(), StoreError>(StoreError::Authorization),
        old(ctx).authority.signed && old(ctx).document.authority == old(ctx).authority.key
            && content@.len() > CONTENT_CAPACITY ==> r == Err::<(), StoreError>(
            StoreError::ContentTooLarge,
        ),
{
    proof {
        lemma_identity_eq(ctx.document.authority, ctx.authority.key);
    }
    if !ctx.authority.signed {
        return Err(StoreError::Authorization);
    }
    if !(ctx.document.authority == ctx.authority.key) {
        return Err(StoreError::Authorization);
    }
    let data = match parse_content(content) {
        Ok(data) => data,
        Err(e) => {
            return Err(e);
        },
    };
    ctx.document.update(data);
    Ok(())
}

/// Destroy a document and count it off its collection: the counter goes down
/// by exactly one and the slot no longer holds a record, so any later read of
/// the document finds nothing.
///
/// Refused with `Authorization` when the caller did not sign or is not the
/// document's authority, and with `CounterUnderflow` when the counter is
/// already zero; on any refusal the referenced records are left unchanged.
pub fn delete_document(ctx: &mut DeleteDocument) -> (r: Result<(), StoreError>)
    requires
        old(ctx).document is Some,
    ensures
        r is Ok <==> old(ctx).authority.signed && old(ctx).document->Some_0.authority == old(
            ctx,
        ).authority.key && old(ctx).collection.count > 0,
        r is Ok ==> final(ctx).document is None && final(ctx).collection == (Collection {
            authority: old(ctx).collection.authority,
            count: (old(ctx).collection.count - 1) as u64,
        }),
        r is Err ==> final(ctx).document == old(ctx).document && final(ctx).collection == old(
            ctx,
        ).collection,
        final(ctx).authority == old(ctx).authority,
        !old(ctx).authority.signed ==> r == Err::<(), StoreError>(StoreError::Authorization),
        old(ctx).authority.signed && old(ctx).document->Some_0.authority != old(ctx).authority.key
            ==> r == Err::<(), StoreError>(StoreError::Authorization),
        old(ctx).authority.signed && old(ctx).document->Some_0.authority == old(ctx).authority.key
            && old(ctx).collection.count == 0 ==> r == Err::<(), StoreError>(
            StoreError::CounterUnderflow,
        ),
{
    if !ctx.authority.signed {
        return Err(StoreError::Authorization);
    }
    let owner_matches = match &ctx.document {
        Some(doc) => {
            proof {
                lemma_identity_eq(doc.authority, ctx.authority.key);
            }
            doc.authority == ctx.authority.key
        },
        None => false,
    };
    if !owner_matches {
        return Err(StoreError::Authorization);
    }
    match ctx.collection.decrement() {
        Ok(()) => {},
        Err(e) => {
            return Err(e);
        },
    }
    Document::delete(&mut ctx.document);
    Ok(())
}

} // verus!
