use vstd::prelude::*;

verus! {

/// The failures that the persistence layer reports.
#[derive(Debug)]
pub enum ApiError {
    /// An inbound payload did not decode; holds the decoder's description.
    SerdeJsonError(String),
    /// A stored record did not decode into an issue; holds the decoder's description.
    SerdeDynamoError(String),
    /// The store failed or rejected the request; holds its description.
    DynamoError(String),
    /// No record has the requested id.
    NotFound,
}

pub open spec fn api_error_text(e: ApiError) -> Seq<char> {
    match e {
        ApiError::SerdeJsonError(d) => "failed to parse json data: "@ + d@,
        ApiError::SerdeDynamoError(d) => "failed to parse database entity: "@ + d@,
        ApiError::DynamoError(d) => "aws_sdk_dynamodb error: "@ + d@,
        ApiError::NotFound => "item not found"@,
    }
}

impl ApiError {
    /// The human-readable description of the failure.
    pub fn message(&self) -> (r: String)
        ensures
            r@ == api_error_text(*self),
    {
        match self {
            ApiError::SerdeJsonError(d) => {
                let r = String::from_str("failed to parse json data: ");
                r.concat(d.as_str())
            },
            ApiError::SerdeDynamoError(d) => {
                let r = String::from_str("failed to parse database entity: ");
                r.concat(d.as_str())
            },
            ApiError::DynamoError(d) => {
                let r = String::from_str("aws_sdk_dynamodb error: ");
                r.concat(d.as_str())
            },
            ApiError::NotFound => String::from_str("item not found"),
        }
    }
}

} // verus!
