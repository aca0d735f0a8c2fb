//! Types of other crates that the library carries through its logic.
//! Verus sees nothing inside a value of them.
use vstd::prelude::*;

verus! {

/// The monitored application, with its tree of locations (starduck).
#[verifier::external_type_specification]
#[verifier::external_body]
pub struct ExApplication(starduck::Application);

/// A sensor message of the Smart Campus (starduck).
#[verifier::external_type_specification]
#[verifier::external_body]
pub struct ExScMessage(starduck::SCMessage);

/// The error of a failed state update (anyhow).
#[verifier::external_type_specification]
#[verifier::external_body]
pub struct ExAnyhowError(anyhow::Error);

/// The error of a failed JSON decoding (serde_json).
#[verifier::external_type_specification]
#[verifier::external_body]
pub struct ExJsonError(serde_json::Error);

/// The error of a URL that could not be read (url).
#[verifier::external_type_specification]
#[verifier::external_body]
pub struct ExUrlParseError(url::ParseError);

/// An open connection to a Redis server (redis).
#[verifier::external_type_specification]
#[verifier::external_body]
pub struct ExRedisConnection(redis::Connection);

/// A client of a Redis server, holding where and how to connect (redis).
#[verifier::external_type_specification]
#[verifier::external_body]
pub struct ExRedisClient(redis::Client);

/// The error of a Redis operation (redis).
#[verifier::external_type_specification]
#[verifier::external_body]
pub struct ExRedisError(redis::RedisError);

/// A path of the file system (std).
#[verifier::external_type_specification]
#[verifier::external_body]
pub struct ExPathBuf(std::path::PathBuf);

} // verus!
