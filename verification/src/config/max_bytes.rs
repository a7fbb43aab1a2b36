//! Text that must not be longer than a number of bytes.

use crate::config::errors::ConfigError;
use crate::text::utf8;
use vstd::prelude::*;

verus! {

/// Hands `text` on if it has at most `MAX` bytes.
pub fn deserialize<const MAX: usize>(text: String) -> (result: Result<String, ConfigError>)
    ensures
        utf8(text@).len() <= MAX ==> result == Ok::<String, ConfigError>(text),
        utf8(text@).len() > MAX ==> result == Err::<String, ConfigError>(
            ConfigError::StringTooLong { len: utf8(text@).len() as usize, max: MAX },
        ),
{
    let len: usize = text.as_str().as_bytes().len();
    if len > MAX {
        Err(ConfigError::StringTooLong { len, max: MAX })
    } else {
        Ok(text)
    }
}

} // verus!
