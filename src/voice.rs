use crate::error::{NeosynthError, NeosynthResult};
use vstd::prelude::*;

verus! {

/// A snapshot of an installed voice: its identifier, language and display
/// name. The engine's own handle to the voice stays with the caller, who
/// finds it again by `id`.
#[derive(Debug)]
pub struct VoiceInfo {
    pub id: String,
    pub language: String,
    pub name: String,
}

impl Clone for VoiceInfo {
    fn clone(&self) -> (r: Self)
        ensures
            r == *self,
    {
        VoiceInfo { id: self.id.clone(), language: self.language.clone(), name: self.name.clone() }
    }
}

/// Whether some voice of `voices` has the identifier `id`.
pub open spec fn has_voice(voices: Seq<VoiceInfo>, id: Seq<char>) -> bool {
    exists|j: int| 0 <= j < voices.len() && (#[trigger] voices[j]).id@ == id
}

/// The message of the error for an unknown voice identifier.
pub open spec fn invalid_voice_message() -> Seq<char> {
    "Invalid voice token given"@
}

/// The message of the error for a missing speaking-rate capability.
pub open spec fn no_prosody_message() -> Seq<char> {
    "The current version of OneCore synthesizer does not support the prosody option"@
}

/// The position of the first voice of `voices` whose identifier is `id`,
/// or an operation error if there is none.
pub fn find_voice(voices: &Vec<VoiceInfo>, id: &String) -> (r: NeosynthResult<usize>)
    ensures
        match r {
            Ok(i) => {
                &&& i < voices@.len()
                &&& voices@[i as int].id@ == id@
                &&& forall|j: int| 0 <= j < i ==> (#[trigger] voices@[j]).id@ != id@
            },
            Err(e) => {
                &&& !has_voice(voices@, id@)
                &&& e matches NeosynthError::OperationError(m) && m@ == invalid_voice_message()
            },
        },
{
    let mut i: usize = 0;
    while i < voices.len()
        invariant
            i <= voices@.len(),
            forall|j: int| 0 <= j < i ==> (#[trigger] voices@[j]).id@ != id@,
        decreases voices@.len() - i,
    {
        if voices[i].id == *id {
            return Ok(i);
        }
        i = i + 1;
    }
    proof {
        reveal_strlit("Invalid voice token given");
    }
    Err(NeosynthError::OperationError(String::from_str("Invalid voice token given")))
}

/// Selects the voice with identifier `id` among `voices` as `current`.
///
/// An identifier that no voice has is an operation error, and `current`
/// stays as it was.
pub fn set_voice_str(current: &mut VoiceInfo, voices: &Vec<VoiceInfo>, id: &String) -> (r: NeosynthResult<()>)
    ensures
        r is Ok <==> has_voice(voices@, id@),
        match r {
            Ok(_) => {
                &&& final(current).id@ == id@
                &&& exists|i: int| 0 <= i < voices@.len() && *final(current) == #[trigger] voices@[i]
            },
            Err(e) => {
                &&& *final(current) == *old(current)
                &&& e matches NeosynthError::OperationError(m) && m@ == invalid_voice_message()
            },
        },
{
    match find_voice(voices, id) {
        Ok(i) => {
            *current = voices[i].clone();
            Ok(())
        },
        Err(e) => Err(e),
    }
}

/// The check made before the speaking rate is changed: it fails with an
/// operation error when the engine lacks the prosody capability.
pub fn check_rate_support(prosody_supported: bool) -> (r: NeosynthResult<()>)
    ensures
        r is Ok <==> prosody_supported,
        r matches Err(e) ==> e matches NeosynthError::OperationError(m) && m@ == no_prosody_message(),
{
    if prosody_supported {
        Ok(())
    } else {
        proof {
            reveal_strlit("The current version of OneCore synthesizer does not support the prosody option");
        }
        Err(
            NeosynthError::OperationError(
                String::from_str("The current version of OneCore synthesizer does not support the prosody option"),
            ),
        )
    }
}

} // verus!
