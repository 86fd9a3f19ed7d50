//! Values of outside crates that the conversation carries without looking inside:
//! JSON objects (tool arguments and tool results) and the errors of the transport
//! and of tool clients.

use vstd::prelude::*;

verus! {

/// `serde_json::Value`, carried without being looked into.
#[verifier::external_type_specification]
#[verifier::external_body]
pub struct ExValue(serde_json::Value);

/// `serde_json::Map`, the JSON objects of tool arguments and tool results.
#[verifier::external_type_specification]
#[verifier::external_body]
#[verifier::reject_recursive_types(K)]
#[verifier::reject_recursive_types(V)]
pub struct ExMap<K, V>(serde_json::Map<K, V>);

/// `serde_json::Error`, a failure to encode or decode JSON.
#[verifier::external_type_specification]
#[verifier::external_body]
pub struct ExJsonError(serde_json::Error);

/// `reqwest::Error`, a failure of the HTTP transport.
#[verifier::external_type_specification]
#[verifier::external_body]
pub struct ExReqwestError(reqwest::Error);

/// `std::io::Error`, a failure to read a file.
#[verifier::external_type_specification]
#[verifier::external_body]
pub struct ExIoError(std::io::Error);

/// `rust_mcp_sdk::error::McpSdkError`, a failure of a tool client.
#[verifier::external_type_specification]
#[verifier::external_body]
pub struct ExMcpSdkError(rust_mcp_sdk::error::McpSdkError);

/// Relies on `Clone for serde_json::Map<String, Value>`: the copy holds the
/// same entries as the map it was made from.
pub assume_specification[ <serde_json::Map<String, serde_json::Value> as Clone>::clone ](
    m: &serde_json::Map<String, serde_json::Value>,
) -> (r: serde_json::Map<String, serde_json::Value>)
    ensures
        r == *m,
;

} // verus!
