//! Extraction of the three facts an inbound storage-change event carries.
//!
//! The event is a JSON object with a `Records` array; only the first record
//! is read, and it must hold a region, a bucket name and an object key, each
//! a string. The first missing or mistyped field aborts the invocation, in
//! the order region, bucket, key, before any remote call is issued.

use vstd::prelude::*;

use crate::json::Json;

verus! {

/// The three strings a well-formed event carries.
#[derive(Debug, PartialEq, Eq)]
pub struct EventFields {
    /// `Records[0].awsRegion`.
    pub region: String,
    /// `Records[0].s3.bucket.name`.
    pub bucket: String,
    /// `Records[0].s3.object.key`.
    pub key: String,
}

/// Which required field was absent or not a string.
#[derive(Debug, PartialEq, Eq, Clone, Copy)]
pub enum InputError {
    MissingRegion,
    MissingBucket,
    MissingKey,
}

/// The first record of the event, when there is one.
pub open spec fn spec_record(event: Json) -> Option<Json> {
    match event.spec_get("Records"@) {
        Option::Some(records) => records.spec_at(0),
        Option::None => Option::None,
    }
}

/// `Records[0].awsRegion`, when present and a string.
pub open spec fn spec_region_field(event: Json) -> Option<Seq<char>> {
    match spec_record(event) {
        Option::Some(rec) => match rec.spec_get("awsRegion"@) {
            Option::Some(v) => v.spec_str(),
            Option::None => Option::None,
        },
        Option::None => Option::None,
    }
}

/// `Records[0].s3.bucket.name`, when present and a string.
pub open spec fn spec_bucket_field(event: Json) -> Option<Seq<char>> {
    match spec_record(event) {
        Option::Some(rec) => spec_path3_str(rec, "s3"@, "bucket"@, "name"@),
        Option::None => Option::None,
    }
}

/// `Records[0].s3.object.key`, when present and a string.
pub open spec fn spec_key_field(event: Json) -> Option<Seq<char>> {
    match spec_record(event) {
        Option::Some(rec) => spec_path3_str(rec, "s3"@, "object"@, "key"@),
        Option::None => Option::None,
    }
}

/// The event carries all three required fields as strings.
pub open spec fn spec_well_formed(event: Json) -> bool {
    &&& spec_region_field(event) is Some
    &&& spec_bucket_field(event) is Some
    &&& spec_key_field(event) is Some
}

/// Exactly when extraction fails, and on which field first.
pub open spec fn spec_extract_err(event: Json, e: InputError) -> bool {
    match e {
        InputError::MissingRegion => spec_region_field(event) is None,
        InputError::MissingBucket => spec_region_field(event) is Some
            && spec_bucket_field(event) is None,
        InputError::MissingKey => spec_region_field(event) is Some
            && spec_bucket_field(event) is Some && spec_key_field(event) is None,
    }
}

/// The first record of the event, when there is one.
fn record_of<'a>(event: &'a Json) -> (r: Option<&'a Json>)
    ensures
        match r {
            Option::Some(v) => spec_record(*event) == Option::Some(*v),
            Option::None => spec_record(*event) is None,
        },
{
    match event.get("Records") {
        Option::Some(records) => records.at(0),
        Option::None => Option::None,
    }
}

/// The string value three keys deep, at `rec.<a>.<b>.<c>`, when present.
pub open spec fn spec_path3_str(rec: Json, a: Seq<char>, b: Seq<char>, c: Seq<char>) -> Option<
    Seq<char>,
> {
    match rec.spec_get(a) {
        Option::Some(va) => match va.spec_get(b) {
            Option::Some(vb) => match vb.spec_get(c) {
                Option::Some(vc) => vc.spec_str(),
                Option::None => Option::None,
            },
            Option::None => Option::None,
        },
        Option::None => Option::None,
    }
}

/// The string value at `rec.<a>.<b>.<c>`, when present.
fn path3_str_of<'a>(rec: &'a Json, a: &str, b: &str, c: &str) -> (r: Option<&'a String>)
    ensures
        match r {
            Option::Some(s) => spec_path3_str(*rec, a@, b@, c@) == Option::Some(s@),
            Option::None => spec_path3_str(*rec, a@, b@, c@) is None,
        },
{
    match rec.get(a) {
        Option::Some(va) => match va.get(b) {
            Option::Some(vb) => match vb.get(c) {
                Option::Some(vc) => vc.as_str(),
                Option::None => Option::None,
            },
            Option::None => Option::None,
        },
        Option::None => Option::None,
    }
}

/// Reads region, bucket and key out of the event. Fails on the first field
/// that is absent or not a string, in that order, and succeeds exactly on
/// well-formed events.
pub fn extract_fields(event: &Json) -> (r: Result<EventFields, InputError>)
    ensures
        r is Ok <==> spec_well_formed(*event),
        match r {
            Result::Ok(f) => {
                &&& spec_region_field(*event) == Option::Some(f.region@)
                &&& spec_bucket_field(*event) == Option::Some(f.bucket@)
                &&& spec_key_field(*event) == Option::Some(f.key@)
            },
            Result::Err(e) => spec_extract_err(*event, e),
        },
{
    let rec = match record_of(event) {
        Option::Some(rec) => rec,
        Option::None => {
            return Result::Err(InputError::MissingRegion);
        },
    };
    let region: String = match rec.get("awsRegion") {
        Option::Some(v) => match v.as_str() {
            Option::Some(s) => s.clone(),
            Option::None => {
                return Result::Err(InputError::MissingRegion);
            },
        },
        Option::None => {
            return Result::Err(InputError::MissingRegion);
        },
    };
    let bucket: String = match path3_str_of(rec, "s3", "bucket", "name") {
        Option::Some(s) => s.clone(),
        Option::None => {
            return Result::Err(InputError::MissingBucket);
        },
    };
    let key: String = match path3_str_of(rec, "s3", "object", "key") {
        Option::Some(s) => s.clone(),
        Option::None => {
            return Result::Err(InputError::MissingKey);
        },
    };
    Result::Ok(EventFields { region, bucket, key })
}

} // verus!
