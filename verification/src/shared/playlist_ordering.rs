//! The orders in which a player can list its playlists.

use crate::shared::W;
use crate::text::same_text;
use crate::value::{
    optional_texts, text_held, text_in, texts_held, texts_in, ConversionError,
};
use vstd::prelude::*;
use zvariant::OwnedValue;

verus! {

/// Specifies the ordering of returned playlists.
#[derive(PartialEq, Eq, Structural, Debug, Hash, Copy, Clone)]
pub enum PlaylistOrdering {
    /// Alphabetical ordering by name, ascending.
    Alphabetical,
    /// Ordering by creation date, oldest first.
    Created,
    /// Ordering by last modified date, oldest first.
    Modified,
    /// Ordering by date of last playback, oldest first.
    Played,
    /// A user-defined ordering, for players that let users order their playlists
    /// as they wish.
    User,
}

impl PlaylistOrdering {
    /// The name that the protocol gives this ordering.
    pub open spec fn name(self) -> Seq<char> {
        match self {
            PlaylistOrdering::Alphabetical => "Alphabetical"@,
            PlaylistOrdering::Created => "Created"@,
            PlaylistOrdering::Modified => "Modified"@,
            PlaylistOrdering::Played => "Played"@,
            PlaylistOrdering::User => "User"@,
        }
    }

    /// The ordering that `text` names, if it names one.
    pub open spec fn named(text: Seq<char>) -> Option<PlaylistOrdering> {
        if text == "Alphabetical"@ {
            Some(PlaylistOrdering::Alphabetical)
        } else if text == "Created"@ {
            Some(PlaylistOrdering::Created)
        } else if text == "Modified"@ {
            Some(PlaylistOrdering::Modified)
        } else if text == "Played"@ {
            Some(PlaylistOrdering::Played)
        } else if text == "User"@ {
            Some(PlaylistOrdering::User)
        } else {
            None
        }
    }

    /// The name that the protocol gives this ordering.
    pub fn as_str(self) -> (r: &'static str)
        ensures
            r@ == self.name(),
    {
        match self {
            PlaylistOrdering::Alphabetical => "Alphabetical",
            PlaylistOrdering::Created => "Created",
            PlaylistOrdering::Modified => "Modified",
            PlaylistOrdering::Played => "Played",
            PlaylistOrdering::User => "User",
        }
    }

    /// Reads an ordering from its name; `None` for any other text.
    pub fn parse(text: &str) -> (r: Option<PlaylistOrdering>)
        ensures
            r == PlaylistOrdering::named(text@),
    {
        if same_text(text, "Alphabetical") {
            Some(PlaylistOrdering::Alphabetical)
        } else if same_text(text, "Created") {
            Some(PlaylistOrdering::Created)
        } else if same_text(text, "Modified") {
            Some(PlaylistOrdering::Modified)
        } else if same_text(text, "Played") {
            Some(PlaylistOrdering::Played)
        } else if same_text(text, "User") {
            Some(PlaylistOrdering::User)
        } else {
            None
        }
    }

    /// Reads an ordering from its name.
    pub fn from(value: &str) -> (r: PlaylistOrdering)
        requires
            PlaylistOrdering::named(value@) is Some,
        ensures
            PlaylistOrdering::named(value@) == Some(r),
    {
        match PlaylistOrdering::parse(value) {
            Some(found) => found,
            None => PlaylistOrdering::User,
        }
    }

    /// Reads an ordering from its name. The error type has no value: the
    /// names that are no ordering's name are left out by the precondition.
    pub fn from_str(s: &str) -> (r: Result<PlaylistOrdering, core::convert::Infallible>)
        requires
            PlaylistOrdering::named(s@) is Some,
        ensures
            r matches Ok(found) && PlaylistOrdering::named(s@) == Some(found),
    {
        Ok(PlaylistOrdering::from(s))
    }

    /// What a value stands for that holds `text` if it is a string, and that
    /// is no string if `text` is `None`.
    pub open spec fn read(text: Option<Seq<char>>) -> Result<PlaylistOrdering, ConversionError> {
        match text {
            None => Err(ConversionError::Unsupported),
            Some(name) => match PlaylistOrdering::named(name) {
                Some(found) => Ok(found),
                None => Err(ConversionError::UnknownName),
            },
        }
    }

    /// Reads an ordering from the text of a value; `None` stands for a value
    /// that is no string.
    pub fn from_text(text: Option<&str>) -> (r: Result<PlaylistOrdering, ConversionError>)
        ensures
            r == PlaylistOrdering::read(
                match text {
                    Some(name) => Some(name@),
                    None => None,
                },
            ),
    {
        match text {
            None => Err(ConversionError::Unsupported),
            Some(name) => match PlaylistOrdering::parse(name) {
                Some(found) => Ok(found),
                None => Err(ConversionError::UnknownName),
            },
        }
    }

    /// Reads an ordering from a value that came over the bus. A value that is
    /// no string gives [`ConversionError::Unsupported`], a string that is no
    /// ordering's name [`ConversionError::UnknownName`].
    pub fn try_from(value: OwnedValue) -> (r: Result<PlaylistOrdering, ConversionError>)
        ensures
            r == PlaylistOrdering::read(text_held(value)),
    {
        match text_in(&value) {
            Some(name) => PlaylistOrdering::from_text(Some(name.as_str())),
            None => PlaylistOrdering::from_text(None),
        }
    }

    /// Each ordering is what its own name names.
    pub proof fn name_is_read_back(self)
        ensures
            PlaylistOrdering::named(self.name()) == Some(self),
    {
        reveal_strlit("Alphabetical");
        reveal_strlit("Created");
        reveal_strlit("Modified");
        reveal_strlit("Played");
        reveal_strlit("User");
        assert("Alphabetical"@.len() == 12);
        assert("Created"@.len() == 7);
        assert("Modified"@.len() == 8);
        assert("Played"@.len() == 6);
        assert("User"@.len() == 4);
    }

    /// A text names an ordering only if it is that ordering's name.
    pub proof fn named_by_its_name_only(text: Seq<char>, found: PlaylistOrdering)
        requires
            PlaylistOrdering::named(text) == Some(found),
        ensures
            text == found.name(),
    {
    }
}

impl From<PlaylistOrdering> for String {
    /// The name of the ordering, as an owned string.
    fn from(value: PlaylistOrdering) -> (r: String)
        ensures
            r@ == value.name(),
    {
        value.as_str().to_owned()
    }
}

/// Two strings with the same characters need not be the same value to the
/// verifier, so the conversion is stated by the characters of its result, in
/// the `ensures` of `from`, and not as one fixed string.
impl vstd::std_specs::convert::FromSpecImpl<PlaylistOrdering> for String {
    open spec fn obeys_from_spec() -> bool {
        false
    }

    open spec fn from_spec(value: PlaylistOrdering) -> String {
        arbitrary()
    }
}

/// The orderings that a row of texts names: each text that is an ordering's
/// name gives that ordering, in the order of the row; a missing text and a
/// text that names no ordering give nothing.
pub open spec fn orderings_named(texts: Seq<Option<Seq<char>>>) -> Seq<PlaylistOrdering>
    decreases texts.len(),
{
    if texts.len() == 0 {
        Seq::empty()
    } else {
        let before = orderings_named(texts.drop_last());
        match PlaylistOrdering::read(texts.last()) {
            Ok(ordering) => before.push(ordering),
            Err(_) => before,
        }
    }
}

/// Reads the orderings out of the texts of an array's items; `None` stands for
/// an item that is no string.
pub fn orderings_among(texts: &Vec<Option<String>>) -> (found: Vec<PlaylistOrdering>)
    ensures
        found@ == orderings_named(optional_texts(texts@)),
{
    let mut found: Vec<PlaylistOrdering> = Vec::new();
    for i in 0..texts.len()
        invariant
            found@ == orderings_named(optional_texts(texts@).take(i as int)),
    {
        proof {
            let upto = optional_texts(texts@).take(i + 1);
            assert(upto.drop_last() == optional_texts(texts@).take(i as int));
            assert(upto.last() == optional_texts(texts@)[i as int]);
        }
        let read = match &texts[i] {
            Some(name) => PlaylistOrdering::from_text(Some(name.as_str())),
            None => PlaylistOrdering::from_text(None),
        };
        match read {
            Ok(ordering) => {
                found.push(ordering);
            },
            Err(_) => {},
        }
    }
    proof {
        assert(optional_texts(texts@).take(texts.len() as int) == optional_texts(texts@));
    }
    found
}

impl W<Vec<PlaylistOrdering>> {
    /// Reads a list of orderings from a value that came over the bus: an array
    /// whose items are names of orderings. Items that are no such name are left
    /// out, and the others keep their order. A value that is no array gives
    /// [`ConversionError::Unsupported`].
    pub fn try_from(value: OwnedValue) -> (r: Result<W<Vec<PlaylistOrdering>>, ConversionError>)
        ensures
            match texts_held(value) {
                Some(held) => r matches Ok(found) && found.0@ == orderings_named(held),
                None => r matches Err(e) && e == ConversionError::Unsupported,
            },
    {
        match texts_in(&value) {
            Some(texts) => Ok(W(orderings_among(&texts))),
            None => Err(ConversionError::Unsupported),
        }
    }
}

} // verus!
