use vstd::prelude::*;

use crate::error::RelayError;

verus! {

/// Whether a request presenting `presented` may pass a gate configured with `api_key`.
pub open spec fn admitted(presented: Option<Seq<char>>, api_key: Option<Seq<char>>) -> bool {
    match api_key {
        None => true,
        Some(k) => presented == Some(k),
    }
}

/// Without a configured key every request passes; with one, exactly the
/// requests that present that key pass.
pub proof fn lemma_gate(presented: Option<Seq<char>>, api_key: Option<Seq<char>>)
    ensures
        api_key is None ==> admitted(presented, api_key),
        api_key is Some ==> (admitted(presented, api_key) <==> presented == api_key),
{
}

/// Checks the caller's bearer credential against the configured key, if any.
pub fn verify_api_key(presented: Option<&String>, api_key: Option<&String>) -> (r: Result<(), RelayError>)
    ensures
        r is Ok <==> admitted(
            match presented { Some(p) => Some(p@), None => None },
            match api_key { Some(k) => Some(k@), None => None },
        ),
        r is Err ==> r == Err::<(), RelayError>(RelayError::Unauthorized),
{
    match api_key {
        None => Ok(()),
        Some(key) => match presented {
            Some(p) => {
                if *p == *key {
                    Ok(())
                } else {
                    Err(RelayError::Unauthorized)
                }
            },
            None => Err(RelayError::Unauthorized),
        },
    }
}

} // verus!
