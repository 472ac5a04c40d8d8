use vstd::prelude::*;

use crate::error::StoreError;

verus! {

/// The part of a loosely-typed JSON value that the library reads: a
/// string, an object whose entries hold strings or anything else, or
/// some other JSON value. The caller's transport decodes the service's
/// JSON reply into this shape; the distinctions it drops (numbers,
/// arrays, nesting below the entries of the top object) are ones the
/// library never looks at.
pub enum ResponseValue {
    /// A JSON string.
    Text(String),
    /// A JSON object, as its entries in order. Keys are unique in a
    /// decoded JSON object; if a caller hands in duplicates anyway, the
    /// first entry with a given key wins.
    Object(Vec<(String, ResponseValue)>),
    /// Any other JSON value.
    Other,
}

/// The service's reply to an upload: `{ "ok": bool, "value": ... }`,
/// with `value` opaque until it is inspected for known fields.
pub struct UploadResponse {
    pub ok: bool,
    pub value: ResponseValue,
}

/// The first entry of `entries` whose key reads `key`, if any.
pub open spec fn lookup_entry(entries: Seq<(String, ResponseValue)>, key: Seq<char>) -> Option<
    ResponseValue,
>
    decreases entries.len(),
{
    if entries.len() == 0 {
        None
    } else if entries[0].0@ == key {
        Some(entries[0].1)
    } else {
        lookup_entry(entries.skip(1), key)
    }
}

/// The CID a reply's `value` carries: the string under its `cid` key,
/// provided `value` is an object and that entry is a string.
pub open spec fn cid_of(value: ResponseValue) -> Option<Seq<char>> {
    match value {
        ResponseValue::Object(entries) => match lookup_entry(entries@, "cid"@) {
            Some(entry) => match entry {
                ResponseValue::Text(s) => Some(s@),
                _ => None,
            },
            None => None,
        },
        _ => None,
    }
}

impl UploadResponse {
    /// Extracts the content identifier from the reply: the string under
    /// the `cid` key of an object-typed `value`. Fails with
    /// [`StoreError::ResponseShape`] exactly when no such string exists
    /// — `value` is not an object, the key is absent, or the entry is
    /// not a string.
    pub fn extract_cid(&self) -> (r: Result<String, StoreError>)
        ensures
            match r {
                Ok(s) => cid_of(self.value) == Some(s@),
                Err(err) => cid_of(self.value) is None && err is ResponseShape,
            },
    {
        match &self.value {
            ResponseValue::Object(entries) => {
                let key: String = "cid".to_owned();
                let n: usize = entries.len();
                let mut i: usize = 0;
                proof {
                    assert(entries@.skip(0) =~= entries@);
                }
                while i < n
                    invariant
                        self.value is Object,
                        self.value->Object_0 == *entries,
                        i <= n,
                        n == entries@.len(),
                        key@ == "cid"@,
                        lookup_entry(entries@, "cid"@) == lookup_entry(
                            entries@.skip(i as int),
                            "cid"@,
                        ),
                    decreases n - i,
                {
                    let pair = &entries[i];
                    proof {
                        assert(entries@.skip(i as int)[0] == entries@[i as int]);
                    }
                    if pair.0 == key {
                        match &pair.1 {
                            ResponseValue::Text(s) => {
                                return Ok(s.clone());
                            },
                            _ => {
                                return Err(StoreError::ResponseShape);
                            },
                        }
                    }
                    proof {
                        assert(entries@.skip(i as int).skip(1) =~= entries@.skip(i as int + 1));
                    }
                    i = i + 1;
                }
                Err(StoreError::ResponseShape)
            },
            _ => Err(StoreError::ResponseShape),
        }
    }
}

} // verus!
