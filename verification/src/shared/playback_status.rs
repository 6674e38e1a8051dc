//! The playback state of a player.

use crate::text::same_text;
use crate::value::{text_held, text_in, ConversionError};
use vstd::prelude::*;
use zvariant::OwnedValue;

verus! {

/// A playback state
#[derive(PartialEq, Eq, Structural, Debug, Hash, Copy, Clone)]
pub enum PlaybackStatus {
    /// A track is currently playing
    Playing,
    /// A track is currently paused
    Paused,
    /// There is no track currently playing
    Stopped,
}

impl PlaybackStatus {
    /// The name that the protocol gives this state.
    pub open spec fn name(self) -> Seq<char> {
        match self {
            PlaybackStatus::Playing => "Playing"@,
            PlaybackStatus::Paused => "Paused"@,
            PlaybackStatus::Stopped => "Stopped"@,
        }
    }

    /// The state that `text` names, if it names one.
    pub open spec fn named(text: Seq<char>) -> Option<PlaybackStatus> {
        if text == "Playing"@ {
            Some(PlaybackStatus::Playing)
        } else if text == "Paused"@ {
            Some(PlaybackStatus::Paused)
        } else if text == "Stopped"@ {
            Some(PlaybackStatus::Stopped)
        } else {
            None
        }
    }

    /// The name that the protocol gives this state.
    pub fn as_str(self) -> (r: &'static str)
        ensures
            r@ == self.name(),
    {
        match self {
            PlaybackStatus::Playing => "Playing",
            PlaybackStatus::Paused => "Paused",
            PlaybackStatus::Stopped => "Stopped",
        }
    }

    /// Reads a state from its name; `None` for any other text.
    pub fn parse(text: &str) -> (r: Option<PlaybackStatus>)
        ensures
            r == PlaybackStatus::named(text@),
    {
        if same_text(text, "Playing") {
            Some(PlaybackStatus::Playing)
        } else if same_text(text, "Paused") {
            Some(PlaybackStatus::Paused)
        } else if same_text(text, "Stopped") {
            Some(PlaybackStatus::Stopped)
        } else {
            None
        }
    }

    /// Reads a state from its name.
    pub fn from(value: &str) -> (r: PlaybackStatus)
        requires
            PlaybackStatus::named(value@) is Some,
        ensures
            PlaybackStatus::named(value@) == Some(r),
    {
        match PlaybackStatus::parse(value) {
            Some(found) => found,
            None => PlaybackStatus::Stopped,
        }
    }

    /// Reads a state from its name. The error type has no value: the
    /// names that are no state's name are left out by the precondition.
    pub fn from_str(s: &str) -> (r: Result<PlaybackStatus, core::convert::Infallible>)
        requires
            PlaybackStatus::named(s@) is Some,
        ensures
            r matches Ok(found) && PlaybackStatus::named(s@) == Some(found),
    {
        Ok(PlaybackStatus::from(s))
    }

    /// What a value stands for that holds `text` if it is a string, and that
    /// is no string if `text` is `None`.
    pub open spec fn read(text: Option<Seq<char>>) -> Result<PlaybackStatus, ConversionError> {
        match text {
            None => Err(ConversionError::Unsupported),
            Some(name) => match PlaybackStatus::named(name) {
                Some(found) => Ok(found),
                None => Err(ConversionError::UnknownName),
            },
        }
    }

    /// Reads a state from the text of a value; `None` stands for a value
    /// that is no string.
    pub fn from_text(text: Option<&str>) -> (r: Result<PlaybackStatus, ConversionError>)
        ensures
            r == PlaybackStatus::read(
                match text {
                    Some(name) => Some(name@),
                    None => None,
                },
            ),
    {
        match text {
            None => Err(ConversionError::Unsupported),
            Some(name) => match PlaybackStatus::parse(name) {
                Some(found) => Ok(found),
                None => Err(ConversionError::UnknownName),
            },
        }
    }

    /// Reads a state from a value that came over the bus. A value that is
    /// no string gives [`ConversionError::Unsupported`], a string that is no
    /// state's name [`ConversionError::UnknownName`].
    pub fn try_from(value: OwnedValue) -> (r: Result<PlaybackStatus, ConversionError>)
        ensures
            r == PlaybackStatus::read(text_held(value)),
    {
        match text_in(&value) {
            Some(name) => PlaybackStatus::from_text(Some(name.as_str())),
            None => PlaybackStatus::from_text(None),
        }
    }

    /// Each state is what its own name names.
    pub proof fn name_is_read_back(self)
        ensures
            PlaybackStatus::named(self.name()) == Some(self),
    {
        reveal_strlit("Playing");
        reveal_strlit("Paused");
        reveal_strlit("Stopped");
        assert("Playing"@.len() == 7);
        assert("Paused"@.len() == 6);
        assert("Stopped"@[0] == 'S');
        assert("Playing"@[0] == 'P');
    }

    /// A text names a state only if it is that state's name.
    pub proof fn named_by_its_name_only(text: Seq<char>, found: PlaybackStatus)
        requires
            PlaybackStatus::named(text) == Some(found),
        ensures
            text == found.name(),
    {
    }
}

impl From<PlaybackStatus> for String {
    /// The name of the state, as an owned string.
    fn from(value: PlaybackStatus) -> (r: String)
        ensures
            r@ == value.name(),
    {
        value.as_str().to_owned()
    }
}

/// Two strings with the same characters need not be the same value to the
/// verifier, so the conversion is stated by the characters of its result, in
/// the `ensures` of `from`, and not as one fixed string.
impl vstd::std_specs::convert::FromSpecImpl<PlaybackStatus> for String {
    open spec fn obeys_from_spec() -> bool {
        false
    }

    open spec fn from_spec(value: PlaybackStatus) -> String {
        arbitrary()
    }
}

} // verus!
