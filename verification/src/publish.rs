//! Transcript publisher decisions.
//!
//! At finalize time the engine hands back its final result; the caller
//! resolves the bound speaker, if any, against the identity collaborator and
//! passes whatever it learned here.  This module decides, as verified code,
//! whether anything is published at all — empty text never is — and under
//! which display name and avatar: the resolved identity, or a fixed anonymous
//! fallback when resolution failed or no speaker was bound.  Publish failures
//! downstream are the caller's to log; nothing here retries or feeds back
//! into session state.

use vstd::prelude::*;

verus! {

/// The engine's final recognition result for one session: the recognized
/// text, possibly empty.
#[derive(Debug, Clone, PartialEq)]
pub struct SimpleResult {
    pub text: String,
}

/// A resolved speaker identity: display name and avatar reference.
#[derive(Debug, Clone, PartialEq)]
pub struct Identity {
    pub display_name: String,
    pub avatar_url: String,
}

/// One transcript ready for dispatch to the publishing sink.
#[derive(Debug, Clone, PartialEq)]
pub struct Transcript {
    pub text: String,
    pub display_name: String,
    pub avatar_url: String,
}

/// The display name used when no speaker identity could be resolved.
pub fn anonymous_name() -> (r: String)
    ensures
        r@ == "Unknown user"@,
{
    "Unknown user".to_owned()
}

/// Decide whether and what to publish for a finalized session.
///
/// Empty final text never yields a publish, whatever the speaker binding
/// state.  Non-empty text is always published exactly once: under the
/// resolved identity when one is given, otherwise under the anonymous
/// fallback name with an empty avatar reference.
pub fn compose_publish(result: SimpleResult, identity: Option<Identity>) -> (r: Option<Transcript>)
    ensures
        result.text@.len() == 0 ==> r is None,
        result.text@.len() > 0 ==> match r {
            Some(t) => {
                &&& t.text == result.text
                &&& match identity {
                    Some(id) => t.display_name == id.display_name && t.avatar_url == id.avatar_url,
                    None => t.display_name@ == "Unknown user"@ && t.avatar_url@ == Seq::<
                        char,
                    >::empty(),
                }
            },
            None => false,
        },
{
    if result.text.as_str().is_empty() {
        None
    } else {
        match identity {
            Some(id) => Some(
                Transcript {
                    text: result.text,
                    display_name: id.display_name,
                    avatar_url: id.avatar_url,
                },
            ),
            None => Some(
                Transcript {
                    text: result.text,
                    display_name: anonymous_name(),
                    avatar_url: String::new(),
                },
            ),
        }
    }
}

} // verus!
