use demobase_alpha::error::StoreError;
use demobase_alpha::handler::create_collection;
use demobase_alpha::handler::create_document;
use demobase_alpha::handler::delete_document;
use demobase_alpha::handler::update_document;
use demobase_alpha::handler::CreateCollection;
use demobase_alpha::handler::CreateDocument;
use demobase_alpha::handler::DeleteDocument;
use demobase_alpha::handler::Signer;
use demobase_alpha::handler::UpdateDocument;
use demobase_alpha::identity::Identity;
use demobase_alpha::record::Collection;
use demobase_alpha::record::Document;

fn identity(tag: u8) -> Identity {
    Identity::new([tag; 32])
}

fn signer(tag: u8) -> Signer {
    Signer { key: identity(tag), signed: true }
}

fn encoded_bytes(text: &[u8]) -> [u8; 32] {
    let mut data = [0u8; 32];
    data[..text.len()].copy_from_slice(text);
    data
}

#[test]
fn create_collection_initializes_record() {
    let mut ctx = CreateCollection { collection: None, authority: signer(1) };
    assert_eq!(create_collection(&mut ctx), Ok(()));
    let collection = ctx.collection.unwrap();
    assert_eq!(collection.count, 0);
    assert_eq!(collection.authority, identity(1));
}

#[test]
fn create_collection_unsigned_caller_rejected() {
    let mut ctx = CreateCollection {
        collection: None,
        authority: Signer { key: identity(1), signed: false },
    };
    assert_eq!(create_collection(&mut ctx), Err(StoreError::Authorization));
    assert!(ctx.collection.is_none());
}

#[test]
fn create_collection_occupied_slot_rejected() {
    let existing = Collection { authority: identity(1), count: 5 };
    let mut ctx = CreateCollection { collection: Some(existing), authority: signer(2) };
    assert_eq!(create_collection(&mut ctx), Err(StoreError::Allocation));
    let kept = ctx.collection.unwrap();
    assert_eq!(kept.count, 5);
    assert_eq!(kept.authority, identity(1));
}

#[test]
fn document_lifecycle_against_one_collection() {
    // create-collection(authority = A)
    let mut cc = CreateCollection { collection: None, authority: signer(1) };
    assert_eq!(create_collection(&mut cc), Ok(()));
    let collection = cc.collection.unwrap();
    assert_eq!(collection.count, 0);

    // create-document(authority = A, content = "hi")
    let mut cd = CreateDocument { document: None, authority: signer(1), collection };
    assert_eq!(create_document(&mut cd, &b"hi".to_vec()), Ok(()));
    assert_eq!(cd.collection.count, 1);
    let document = cd.document.unwrap();
    assert_eq!(document.authority, identity(1));
    assert_eq!(document.content, encoded_bytes(b"hi"));

    // update-document(authority = A, content = "bye")
    let mut ud = UpdateDocument { document, authority: signer(1), collection: cd.collection };
    assert_eq!(update_document(&mut ud, &b"bye".to_vec()), Ok(()));
    assert_eq!(ud.document.content, encoded_bytes(b"bye"));
    assert_eq!(ud.document.authority, identity(1));

    // delete-document(authority = A)
    let mut dd = DeleteDocument {
        document: Some(ud.document),
        authority: signer(1),
        collection: ud.collection,
    };
    assert_eq!(delete_document(&mut dd), Ok(()));
    assert_eq!(dd.collection.count, 0);
    assert!(dd.document.is_none());
}

#[test]
fn create_document_cross_authority_succeeds() {
    // a collection created by A accepts documents from B: the two
    // authorities are independent
    let mut cc = CreateCollection { collection: None, authority: signer(1) };
    assert_eq!(create_collection(&mut cc), Ok(()));
    let mut cd = CreateDocument {
        document: None,
        authority: signer(2),
        collection: cc.collection.unwrap(),
    };
    assert_eq!(create_document(&mut cd, &b"note".to_vec()), Ok(()));
    assert_eq!(cd.collection.count, 1);
    assert_eq!(cd.collection.authority, identity(1));
    assert_eq!(cd.document.unwrap().authority, identity(2));
}

#[test]
fn create_document_unsigned_caller_rejected() {
    let mut ctx = CreateDocument {
        document: None,
        authority: Signer { key: identity(1), signed: false },
        collection: Collection { authority: identity(1), count: 0 },
    };
    assert_eq!(create_document(&mut ctx, &b"hi".to_vec()), Err(StoreError::Authorization));
    assert!(ctx.document.is_none());
    assert_eq!(ctx.collection.count, 0);
}

#[test]
fn create_document_occupied_slot_rejected() {
    let existing = Document { authority: identity(3), content: [9u8; 32] };
    let mut ctx = CreateDocument {
        document: Some(existing),
        authority: signer(1),
        collection: Collection { authority: identity(1), count: 4 },
    };
    assert_eq!(create_document(&mut ctx, &b"hi".to_vec()), Err(StoreError::Allocation));
    assert_eq!(ctx.collection.count, 4);
    assert_eq!(ctx.document.unwrap().content, [9u8; 32]);
}

#[test]
fn create_document_counter_overflow_rejected() {
    let mut ctx = CreateDocument {
        document: None,
        authority: signer(1),
        collection: Collection { authority: identity(1), count: u64::MAX },
    };
    assert_eq!(create_document(&mut ctx, &b"hi".to_vec()), Err(StoreError::CounterOverflow));
    assert!(ctx.document.is_none());
    assert_eq!(ctx.collection.count, u64::MAX);
}

#[test]
fn create_document_oversize_content_rejected() {
    let mut ctx = CreateDocument {
        document: None,
        authority: signer(1),
        collection: Collection { authority: identity(1), count: 2 },
    };
    let content = vec![7u8; 33];
    assert_eq!(create_document(&mut ctx, &content), Err(StoreError::ContentTooLarge));
    assert!(ctx.document.is_none());
    assert_eq!(ctx.collection.count, 2);
}

#[test]
fn update_document_non_owner_rejected() {
    let original = encoded_bytes(b"kept");
    let mut ctx = UpdateDocument {
        document: Document { authority: identity(1), content: original },
        authority: signer(2),
        collection: Collection { authority: identity(1), count: 1 },
    };
    assert_eq!(update_document(&mut ctx, &b"gone".to_vec()), Err(StoreError::Authorization));
    assert_eq!(ctx.document.content, original);
    assert_eq!(ctx.document.authority, identity(1));
}

#[test]
fn update_document_unsigned_caller_rejected() {
    let original = encoded_bytes(b"kept");
    let mut ctx = UpdateDocument {
        document: Document { authority: identity(1), content: original },
        authority: Signer { key: identity(1), signed: false },
        collection: Collection { authority: identity(1), count: 1 },
    };
    assert_eq!(update_document(&mut ctx, &b"gone".to_vec()), Err(StoreError::Authorization));
    assert_eq!(ctx.document.content, original);
}

#[test]
fn update_document_oversize_content_rejected() {
    let original = encoded_bytes(b"kept");
    let mut ctx = UpdateDocument {
        document: Document { authority: identity(1), content: original },
        authority: signer(1),
        collection: Collection { authority: identity(1), count: 1 },
    };
    let content = vec![7u8; 40];
    assert_eq!(update_document(&mut ctx, &content), Err(StoreError::ContentTooLarge));
    assert_eq!(ctx.document.content, original);
}

#[test]
fn delete_document_decrements_and_destroys() {
    let mut ctx = DeleteDocument {
        document: Some(Document { authority: identity(1), content: encoded_bytes(b"hi") }),
        authority: signer(1),
        collection: Collection { authority: identity(1), count: 3 },
    };
    assert_eq!(delete_document(&mut ctx), Ok(()));
    assert_eq!(ctx.collection.count, 2);
    assert!(ctx.document.is_none());
}

#[test]
fn delete_document_non_owner_rejected() {
    let mut ctx = DeleteDocument {
        document: Some(Document { authority: identity(1), content: encoded_bytes(b"hi") }),
        authority: signer(2),
        collection: Collection { authority: identity(1), count: 3 },
    };
    assert_eq!(delete_document(&mut ctx), Err(StoreError::Authorization));
    assert_eq!(ctx.collection.count, 3);
    assert_eq!(ctx.document.unwrap().authority, identity(1));
}

#[test]
fn delete_document_counter_underflow_rejected() {
    let mut ctx = DeleteDocument {
        document: Some(Document { authority: identity(1), content: encoded_bytes(b"hi") }),
        authority: signer(1),
        collection: Collection { authority: identity(1), count: 0 },
    };
    assert_eq!(delete_document(&mut ctx), Err(StoreError::CounterUnderflow));
    assert_eq!(ctx.collection.count, 0);
    assert!(ctx.document.is_some());
}

#[test]
fn counter_follows_create_and_delete_sequence() {
    let mut cc = CreateCollection { collection: None, authority: signer(1) };
    assert_eq!(create_collection(&mut cc), Ok(()));
    let mut collection = cc.collection.unwrap();
    let mut live: Vec<Document> = Vec::new();
    for round in 0..4u8 {
        let mut cd = CreateDocument { document: None, authority: signer(round + 10), collection };
        assert_eq!(create_document(&mut cd, &vec![round; 3]), Ok(()));
        collection = cd.collection;
        live.push(cd.document.unwrap());
        assert_eq!(collection.count as usize, live.len());
    }
    while let Some(document) = live.pop() {
        let mut dd = DeleteDocument {
            document: Some(document),
            authority: Signer { key: document.authority, signed: true },
            collection,
        };
        assert_eq!(delete_document(&mut dd), Ok(()));
        collection = dd.collection;
        assert_eq!(collection.count as usize, live.len());
    }
    assert_eq!(collection.count, 0);
}

#[test]
fn identity_equality_is_bytewise() {
    assert_eq!(identity(1), identity(1));
    assert_ne!(identity(1), identity(2));
    let mut bytes = [1u8; 32];
    bytes[31] = 2;
    assert_ne!(Identity::new(bytes), identity(1));
}
