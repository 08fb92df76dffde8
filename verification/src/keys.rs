//! What to do about the private key at start-up.

use crate::cli::Opts;
use crate::constants::PRIVATE_KEY_LENGTH;
use vstd::prelude::*;

verus! {

/// The next thing to do about the private key of this run.
#[derive(Clone, Copy, Debug, PartialEq, Eq, Structural)]
pub enum KeyPlan {
    /// Ask the user whether the stored key may be replaced, and decide again
    /// with the answer. Nothing is read or written yet.
    Confirm,
    /// Generate a key and write it over the stored one. The user has said
    /// yes to this.
    Regenerate,
    /// Read the stored key.
    Load,
    /// Generate a key, and store it where `persist` is set.
    Generate { persist: bool },
}

/// Why no private key can be had.
#[derive(Clone, Copy, Debug, PartialEq, Eq, Structural)]
pub enum KeyError {
    /// A key cannot be both replaced on disk and kept off it.
    RegenerateEphemeral,
    /// The user did not confirm that the stored key be replaced.
    Declined,
    /// The key file does not hold exactly 32 bytes.
    InvalidKeyLength,
}

impl KeyPlan {
    /// Whether carrying out the plan writes the key file.
    pub open spec fn writes_key_file(self) -> bool {
        match self {
            KeyPlan::Confirm => false,
            KeyPlan::Regenerate => true,
            KeyPlan::Load => false,
            KeyPlan::Generate { persist } => persist,
        }
    }

    /// Whether carrying out the plan writes the key file.
    pub fn writes(&self) -> (r: bool)
        ensures
            r == self.writes_key_file(),
    {
        match self {
            KeyPlan::Confirm => false,
            KeyPlan::Regenerate => true,
            KeyPlan::Load => false,
            KeyPlan::Generate { persist } => *persist,
        }
    }
}

/// The plan for the given flags, whether a key file exists, and the user's
/// answer to the confirmation, if the user has been asked. A stored key is
/// replaced only on request and only after a yes; without an answer the plan
/// is to ask. Where no replacement is requested the answer plays no part.
pub open spec fn key_plan(
    regenerate: bool,
    ephemeral: bool,
    key_file_exists: bool,
    answer: Option<bool>,
) -> Result<KeyPlan, KeyError> {
    if regenerate {
        if ephemeral {
            Err(KeyError::RegenerateEphemeral)
        } else {
            match answer {
                None => Ok(KeyPlan::Confirm),
                Some(yes) => if yes {
                    Ok(KeyPlan::Regenerate)
                } else {
                    Err(KeyError::Declined)
                },
            }
        }
    } else if key_file_exists && !ephemeral {
        Ok(KeyPlan::Load)
    } else {
        Ok(KeyPlan::Generate { persist: !ephemeral })
    }
}

/// Decides how the private key is obtained: regenerated on request and after
/// the user's yes, read from its file where that exists, else generated; an
/// ephemeral key is neither read nor stored. `answer` is what the user said
/// to the confirmation, or nothing where the user has not been asked yet.
pub fn load_secret_key(opts: &Opts, key_file_exists: bool, answer: Option<bool>) -> (r: Result<
    KeyPlan,
    KeyError,
>)
    ensures
        r == key_plan(opts.regenerate, opts.ephemeral, key_file_exists, answer),
        (opts.regenerate && answer != Some(true)) ==> !(r matches Ok(plan)
            && plan.writes_key_file()),
{
    if opts.regenerate {
        if opts.ephemeral {
            return Err(KeyError::RegenerateEphemeral);
        }
        return match answer {
            None => Ok(KeyPlan::Confirm),
            Some(true) => Ok(KeyPlan::Regenerate),
            Some(false) => Err(KeyError::Declined),
        };
    }
    if key_file_exists && !opts.ephemeral {
        return Ok(KeyPlan::Load);
    }
    Ok(KeyPlan::Generate { persist: !opts.ephemeral })
}

/// The private key held by the contents of a key file: exactly 32 bytes.
pub fn secret_key_bytes(contents: &[u8]) -> (r: Result<[u8; 32], KeyError>)
    ensures
        match r {
            Ok(key) => key@ == contents@,
            Err(e) => contents@.len() != 32 && e == KeyError::InvalidKeyLength,
        },
{
    if contents.len() != PRIVATE_KEY_LENGTH {
        return Err(KeyError::InvalidKeyLength);
    }
    let mut key = [0u8;32];
    let mut i: usize = 0;
    while i < 32
        invariant
            i <= 32,
            contents@.len() == 32,
            forall|k: int| 0 <= k < i ==> key@[k] == contents@[k],
        decreases 32 - i,
    {
        key[i] = contents[i];
        i += 1;
    }
    assert(key@ =~= contents@);
    Ok(key)
}

/// A key file that exists is written over only on request and after a yes:
/// with any other answer, or with none yet, no plan that writes the key file
/// comes out. With `ephemeral` set the key file is never written.
pub proof fn no_write_without_confirmation(
    regenerate: bool,
    ephemeral: bool,
    key_file_exists: bool,
    answer: Option<bool>,
)
    ensures
        key_plan(regenerate, ephemeral, key_file_exists, answer) matches Ok(plan) ==> {
            &&& plan.writes_key_file() ==> !ephemeral
            &&& (plan.writes_key_file() && key_file_exists) ==> (regenerate && answer == Some(true))
            &&& (plan.writes_key_file() && regenerate) ==> answer == Some(true)
        },
        (regenerate && !ephemeral && answer == Some(false)) ==> key_plan(
            regenerate,
            ephemeral,
            key_file_exists,
            answer,
        ) == Err::<KeyPlan, KeyError>(KeyError::Declined),
        (regenerate && ephemeral) ==> key_plan(regenerate, ephemeral, key_file_exists, answer)
            == Err::<KeyPlan, KeyError>(KeyError::RegenerateEphemeral),
{
}

/// The question is put once: with the user's answer in hand the plan is
/// never to ask again.
pub proof fn confirmation_is_asked_once(
    regenerate: bool,
    ephemeral: bool,
    key_file_exists: bool,
    answer: bool,
)
    ensures
        key_plan(regenerate, ephemeral, key_file_exists, Some(answer)) != Ok::<KeyPlan, KeyError>(
            KeyPlan::Confirm,
        ),
        key_plan(regenerate, ephemeral, key_file_exists, None) == Ok::<KeyPlan, KeyError>(
            KeyPlan::Confirm,
        ) <==> (regenerate && !ephemeral),
{
}

} // verus!
