//! Small value types for the external collaborators: reply styling for
//! the command layer, the credential for the chat-platform client, and
//! the status check for the speech-synthesis API.

use vstd::prelude::*;

verus! {

/// How a reply should be styled by the command layer.
#[derive(Debug, PartialEq, Eq)]
pub enum EmbedType {
    Good,
    Bad,
    Neutral,
}

/// The chat-platform credential, as loaded from configuration.
#[derive(Debug)]
pub struct APIKey {
    pub token: String,
}

/// Check a status code returned by the speech-synthesis collaborator's
/// API: zero means success, anything else is handed back as the error.
pub fn check_mm(code: u32) -> (r: Result<(), u32>)
    ensures
        r is Ok <==> code == 0,
        r matches Err(c) ==> c == code,
{
    if code == 0 {
        Ok(())
    } else {
        Err(code)
    }
}

} // verus!
