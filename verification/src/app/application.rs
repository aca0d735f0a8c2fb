//! Sensor messages: how a payload is read, and what is reported of it.
use vstd::prelude::*;
use vstd::string::to_string_from_display_ensures;
use starduck::SCMessage;

verus! {

/// What came of one sensor message handed to the application.
#[derive(Debug, Clone, PartialEq, Eq)]
pub enum MessageOutcome {
    /// The payload is no sensor message; the decoder said why.
    Malformed(String),
    /// The message was taken into the state.
    Applied,
    /// The state refused the message; the update said why.
    Refused(String),
}

/// Whether `serde_json` decodes the text `payload` as a sensor message
/// (`starduck::SCMessage`).
pub uninterp spec fn is_sensor_message(payload: Seq<char>) -> bool;

/// Trusted: `serde_json::from_str::<starduck::SCMessage>`. It succeeds
/// exactly on the texts named by `is_sensor_message`: the decoding depends on
/// the text alone. The decoded message itself is left opaque.
#[verifier::external_body]
pub(crate) fn decode_sensor_message(payload: &str) -> (res: Result<SCMessage, serde_json::Error>)
    ensures
        res is Ok <==> is_sensor_message(payload@),
{
    serde_json::from_str::<SCMessage>(payload)
}

/// Reads the text `payload` as a sensor message. A payload that is no
/// sensor message is reported as `Malformed`, with the decoder's reason.
pub fn read_message(payload: &str) -> (res: Result<SCMessage, MessageOutcome>)
    ensures
        res is Ok <==> is_sensor_message(payload@),
        res matches Err(outcome) ==> outcome is Malformed,
        res matches Err(MessageOutcome::Malformed(text)) ==> exists|error: serde_json::Error|
            to_string_from_display_ensures::<serde_json::Error>(&error, text),
{
    match decode_sensor_message(payload) {
        Ok(message) => Ok(message),
        Err(error) => {
            let text = error.to_string();
            assert(exists|e: serde_json::Error| to_string_from_display_ensures::<serde_json::Error>(&e, text));
            let res: Result<SCMessage, MessageOutcome> = Err(MessageOutcome::Malformed(text));
            assert(res matches Err(MessageOutcome::Malformed(t)) && t == text);
            res
        },
    }
}

/// The outcome of a message that was read, given what the update of the
/// application from it returned.
pub fn update_report(update: Result<(), anyhow::Error>) -> (outcome: MessageOutcome)
    ensures
        outcome is Applied <==> update is Ok,
        outcome is Refused <==> update is Err,
        outcome matches MessageOutcome::Refused(text) ==> update matches Err(error)
            && to_string_from_display_ensures::<anyhow::Error>(&error, text),
{
    match update {
        Ok(()) => MessageOutcome::Applied,
        Err(error) => MessageOutcome::Refused(error.to_string()),
    }
}

} // verus!
