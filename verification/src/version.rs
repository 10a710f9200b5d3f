//! The version gate: the first thing a request must pass.

use vstd::prelude::*;
use crate::error::{ErrorResponse, ErrorResponseView};
use crate::text::str_equal;

verus! {

/// The one version token that the service accepts.
pub open spec fn supported_version() -> Seq<char> {
    seq!['v', '1']
}

/// Whether a version token is accepted: it is the supported token, character
/// for character. Case and surrounding whitespace are not forgiven.
pub open spec fn accepted_version(version: Seq<char>) -> bool {
    version == supported_version()
}

/// What a client is told when its version token is turned away.
pub open spec fn version_rejection(version: Seq<char>) -> ErrorResponseView {
    ErrorResponseView {
        message: "Unsupported API version: "@ + version,
        api_version: Some(version),
        bot_id: None,
    }
}

/// The supported version token.
pub fn supported_version_token() -> (token: &'static str)
    ensures
        token@ == supported_version(),
{
    proof {
        reveal_strlit("v1");
    }
    "v1"
}

/// Lets a request through if its version token is the supported one, and
/// turns every other token away with the same kind of answer.
pub fn check_api_version(version: &str) -> (res: Result<(), ErrorResponse>)
    ensures
        res is Ok <==> accepted_version(version@),
        res matches Err(e) ==> e@ == version_rejection(version@),
{
    if str_equal(version, supported_version_token()) {
        Ok(())
    } else {
        let mut message: String = String::from_str("Unsupported API version: ");
        message.append(version);
        Err(ErrorResponse { message, api_version: Some(String::from_str(version)), bot_id: None })
    }
}

/// A token is accepted only if it is exactly two characters long and reads
/// `v1`: a longer, shorter or differently cased token is turned away.
pub proof fn lemma_version_gate_exact(version: Seq<char>)
    ensures
        accepted_version(version) <==> (version.len() == 2 && version[0] == 'v' && version[1]
            == '1'),
{
    if version.len() == 2 && version[0] == 'v' && version[1] == '1' {
        assert(version =~= supported_version());
    }
}

} // verus!
