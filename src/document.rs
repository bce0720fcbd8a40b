//! Locating the stored document that a storage notification names.
use vstd::prelude::*;

verus! {

/// One record of a storage notification: where the object lies.
#[derive(Debug)]
pub struct StoredObject {
    pub bucket: Option<String>,
    pub key: Option<String>,
}

/// What a notification lacks for a document to be located.
#[derive(Debug, PartialEq, Eq, Structural, Clone, Copy)]
pub enum DocumentError {
    NoRecord,
    NoBucketName,
    NoObjectKey,
}

/// The request sent with the located document.
pub const SUMMARY_PROMPT: &'static str = "Summarize in few sentences the given document.";

/// The URI of the object `key` in `bucket`.
pub open spec fn object_uri(bucket: Seq<char>, key: Seq<char>) -> Seq<char> {
    "s3://"@ + bucket + "/"@ + key
}

/// The URI of the object that the first record names. A notification without
/// records, or whose first record lacks its bucket or key, is an error.
pub fn document_uri(records: &Vec<StoredObject>) -> (r: Result<String, DocumentError>)
    ensures
        records@.len() == 0 ==> r == Err::<String, DocumentError>(DocumentError::NoRecord),
        records@.len() > 0 ==> {
            let first = records@[0];
            if first.bucket is None {
                r == Err::<String, DocumentError>(DocumentError::NoBucketName)
            } else if first.key is None {
                r == Err::<String, DocumentError>(DocumentError::NoObjectKey)
            } else {
                r matches Ok(u) && u@ == object_uri(first.bucket->0@, first.key->0@)
            }
        },
{
    if records.len() == 0 {
        return Err(DocumentError::NoRecord);
    }
    let first = &records[0];
    let bucket = match &first.bucket {
        Some(b) => b,
        None => return Err(DocumentError::NoBucketName),
    };
    let key = match &first.key {
        Some(k) => k,
        None => return Err(DocumentError::NoObjectKey),
    };
    let mut uri = "s3://".to_owned();
    uri.append(bucket.as_str());
    uri.append("/");
    uri.append(key.as_str());
    Ok(uri)
}

} // verus!
