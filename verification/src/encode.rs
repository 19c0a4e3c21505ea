use vstd::prelude::*;

use crate::error::StoreError;

verus! {

/// Capacity of a document's fixed content buffer, in bytes.
pub const CONTENT_CAPACITY: usize = 32;

/// The 32-byte buffer that holds `content`: the content's bytes from offset 0,
/// then zero fill.
pub open spec fn encoded(content: Seq<u8>) -> Seq<u8>
    recommends
        content.len() <= CONTENT_CAPACITY,
{
    Seq::new(
        CONTENT_CAPACITY as nat,
        |i: int| if i < content.len() { content[i] } else { 0u8 },
    )
}

/// Encode caller-supplied content into a document's fixed buffer.
///
/// Content of at most 32 bytes is copied to the front of a fresh 32-byte
/// buffer whose trailing bytes are zero; longer content is refused with
/// `ContentTooLarge` before any copy is attempted.
pub fn parse_content(content: &Vec<u8>) -> (r: Result<[u8; 32], StoreError>)
    ensures
        r is Ok <==> content@.len() <= CONTENT_CAPACITY,
        r is Ok ==> r->Ok_0@ == encoded(content@),
        r is Err ==> r->Err_0 == StoreError::ContentTooLarge,
{
    if content.len() > CONTENT_CAPACITY {
        return Err(StoreError::ContentTooLarge);
    }
    let mut data: [u8; 32] = [0u8; 32];
    let mut i: usize = 0;
    while i < content.len()
        invariant
            0 <= i <= content@.len() <= CONTENT_CAPACITY,
            forall|j: int| 0 <= j < i ==> data@[j] == content@[j],
            forall|j: int| i <= j < CONTENT_CAPACITY ==> data@[j] == 0u8,
        decreases content@.len() - i,
    {
        data[i] = content[i];
        i += 1;
    }
    proof {
        assert(data@ =~= encoded(content@));
    }
    Ok(data)
}

} // verus!
