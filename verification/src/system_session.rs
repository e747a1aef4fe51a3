//! The session system: ends a session; its only argument is the end-of-session code.
use vstd::prelude::*;

verus! {

/// Why the session system refuses.
#[derive(Clone, Copy, Debug, PartialEq, Eq, Structural)]
pub enum SessionError {
    InvalidArgs,
    Unauthorized,
}

/// Accepts the end-of-session code 0 as the first argument byte and nothing else.
pub fn execute(args: &[u8]) -> (r: Result<(), SessionError>)
    ensures
        r is Ok <==> args.len() >= 1 && args[0] == 0,
        r is Err ==> r == Err::<(), SessionError>(SessionError::InvalidArgs),
{
    if args.len() == 0 {
        return Err(SessionError::InvalidArgs);
    }
    if args[0] != 0 {
        return Err(SessionError::InvalidArgs);
    }
    Ok(())
}

} // verus!
