//! Whether and how a player repeats what it plays.

use crate::text::same_text;
use crate::value::{text_held, text_in, ConversionError};
use vstd::prelude::*;
use zvariant::OwnedValue;

verus! {

/// A repeat / loop status
#[derive(PartialEq, Eq, Structural, Debug, Hash, Copy, Clone)]
pub enum LoopStatus {
    /// The playback will stop when there are no more tracks to play
    NoLoop,
    /// The current track will start again from the begining once it has finished playing
    Track,
    /// The playback loops through a list of tracks
    Playlist,
}

impl LoopStatus {
    /// The name that the protocol gives this loop status.
    pub open spec fn name(self) -> Seq<char> {
        match self {
            LoopStatus::NoLoop => "None"@,
            LoopStatus::Track => "Track"@,
            LoopStatus::Playlist => "Playlist"@,
        }
    }

    /// The loop status that `text` names, if it names one.
    pub open spec fn named(text: Seq<char>) -> Option<LoopStatus> {
        if text == "None"@ {
            Some(LoopStatus::NoLoop)
        } else if text == "Track"@ {
            Some(LoopStatus::Track)
        } else if text == "Playlist"@ {
            Some(LoopStatus::Playlist)
        } else {
            None
        }
    }

    /// The name that the protocol gives this loop status.
    pub fn as_str(self) -> (r: &'static str)
        ensures
            r@ == self.name(),
    {
        match self {
            LoopStatus::NoLoop => "None",
            LoopStatus::Track => "Track",
            LoopStatus::Playlist => "Playlist",
        }
    }

    /// Reads a loop status from its name; `None` for any other text.
    pub fn parse(text: &str) -> (r: Option<LoopStatus>)
        ensures
            r == LoopStatus::named(text@),
    {
        if same_text(text, "None") {
            Some(LoopStatus::NoLoop)
        } else if same_text(text, "Track") {
            Some(LoopStatus::Track)
        } else if same_text(text, "Playlist") {
            Some(LoopStatus::Playlist)
        } else {
            None
        }
    }

    /// Reads a loop status from its name.
    pub fn from(value: &str) -> (r: LoopStatus)
        requires
            LoopStatus::named(value@) is Some,
        ensures
            LoopStatus::named(value@) == Some(r),
    {
        match LoopStatus::parse(value) {
            Some(found) => found,
            None => LoopStatus::Playlist,
        }
    }

    /// Reads a loop status from its name. The error type has no value: the
    /// names that are no loop status's name are left out by the precondition.
    pub fn from_str(s: &str) -> (r: Result<LoopStatus, core::convert::Infallible>)
        requires
            LoopStatus::named(s@) is Some,
        ensures
            r matches Ok(found) && LoopStatus::named(s@) == Some(found),
    {
        Ok(LoopStatus::from(s))
    }

    /// What a value stands for that holds `text` if it is a string, and that
    /// is no string if `text` is `None`.
    pub open spec fn read(text: Option<Seq<char>>) -> Result<LoopStatus, ConversionError> {
        match text {
            None => Err(ConversionError::Unsupported),
            Some(name) => match LoopStatus::named(name) {
                Some(found) => Ok(found),
                None => Err(ConversionError::UnknownName),
            },
        }
    }

    /// Reads a loop status from the text of a value; `None` stands for a value
    /// that is no string.
    pub fn from_text(text: Option<&str>) -> (r: Result<LoopStatus, ConversionError>)
        ensures
            r == LoopStatus::read(
                match text {
                    Some(name) => Some(name@),
                    None => None,
                },
            ),
    {
        match text {
            None => Err(ConversionError::Unsupported),
            Some(name) => match LoopStatus::parse(name) {
                Some(found) => Ok(found),
                None => Err(ConversionError::UnknownName),
            },
        }
    }

    /// Reads a loop status from a value that came over the bus. A value that is
    /// no string gives [`ConversionError::Unsupported`], a string that is no
    /// loop status's name [`ConversionError::UnknownName`].
    pub fn try_from(value: OwnedValue) -> (r: Result<LoopStatus, ConversionError>)
        ensures
            r == LoopStatus::read(text_held(value)),
    {
        match text_in(&value) {
            Some(name) => LoopStatus::from_text(Some(name.as_str())),
            None => LoopStatus::from_text(None),
        }
    }

    /// Each loop status is what its own name names.
    pub proof fn name_is_read_back(self)
        ensures
            LoopStatus::named(self.name()) == Some(self),
    {
        reveal_strlit("None");
        reveal_strlit("Track");
        reveal_strlit("Playlist");
        assert("None"@.len() == 4);
        assert("Track"@.len() == 5);
        assert("Playlist"@.len() == 8);
    }

    /// A text names a loop status only if it is that loop status's name.
    pub proof fn named_by_its_name_only(text: Seq<char>, found: LoopStatus)
        requires
            LoopStatus::named(text) == Some(found),
        ensures
            text == found.name(),
    {
    }
}

impl From<LoopStatus> for String {
    /// The name of the loop status, as an owned string.
    fn from(value: LoopStatus) -> (r: String)
        ensures
            r@ == value.name(),
    {
        value.as_str().to_owned()
    }
}

/// Two strings with the same characters need not be the same value to the
/// verifier, so the conversion is stated by the characters of its result, in
/// the `ensures` of `from`, and not as one fixed string.
impl vstd::std_specs::convert::FromSpecImpl<LoopStatus> for String {
    open spec fn obeys_from_spec() -> bool {
        false
    }

    open spec fn from_spec(value: LoopStatus) -> String {
        arbitrary()
    }
}

} // verus!
