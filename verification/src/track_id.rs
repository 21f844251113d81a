//! Track identifiers and their base-62 text.

use vstd::prelude::*;

verus! {

#[verifier::external_type_specification]
#[verifier::external_body]
pub struct ExFromUtf8Error(std::string::FromUtf8Error);

/// A 128-bit identifier of a track or an episode.
#[derive(Clone, Copy, Debug, PartialEq, Eq, Structural)]
pub struct TrackId {
    pub id: u128,
}

/// Why an identifier has no text.
#[derive(Clone, Debug, PartialEq, Eq)]
pub struct InvalidTrackId {
    /// What the encoder reported.
    pub detail: String,
}

/// The number of characters in the text of an identifier.
pub const BASE62_LEN: usize = 22;

/// The sixty-two digits, in the order of their values.
pub open spec fn base62_alphabet() -> Seq<char> {
    "0123456789abcdefghijklmnopqrstuvwxyzABCDEFGHIJKLMNOPQRSTUVWXYZ"@
}

/// The `width` least significant base-62 digits of `n`, most significant
/// first.
pub open spec fn base62_digits(n: nat, width: nat) -> Seq<char>
    decreases width,
{
    if width == 0 {
        Seq::empty()
    } else {
        base62_digits(n / 62, (width - 1) as nat).push(base62_alphabet()[(n % 62) as int])
    }
}

/// The text of an identifier: its value in base 62, padded with zeros to
/// twenty-two digits.
pub open spec fn base62_text(id: u128) -> Seq<char> {
    base62_digits(id as nat, BASE62_LEN as nat)
}

/// What `SpotifyId::to_base62` gives for the identifier with the given
/// value: its text, or `None` where it fails.
pub uninterp spec fn base62_encoded(id: u128) -> Option<Seq<char>>;

/// `SpotifyId::to_base62` of `librespot_core`, on the identifier with the
/// given value; the audio type of a `SpotifyId` plays no part in its text.
/// Whether the call succeeds depends on the value alone. When it returns a
/// string, that string is the value written in base 62 with the digits
/// `0-9`, `a-z`, `A-Z`, twenty-two characters long. Nothing is claimed about
/// the values on which it fails.
#[verifier::external_body]
fn to_base62(id: u128) -> (text: Result<String, std::string::FromUtf8Error>)
    ensures
        text is Ok <==> base62_encoded(id) is Some,
        text matches Ok(s) ==> base62_encoded(id) == Some(s@) && s@ == base62_text(id),
{
    librespot_core::spotify_id::SpotifyId {
        id,
        audio_type: librespot_core::spotify_id::SpotifyAudioType::Track,
    }.to_base62()
}

impl TrackId {
    /// Whether the identifier has a text.
    pub open spec fn has_text(&self) -> bool {
        base62_encoded(self.id) is Some
    }

    /// Encodes the identifier as text. It succeeds if the identifier has a
    /// text, which is then its value in base 62.
    pub fn encode(&self) -> (encoded: Result<String, InvalidTrackId>)
        ensures
            encoded is Ok <==> self.has_text(),
            encoded matches Ok(s) ==> s@ == base62_text(self.id),
    {
        match to_base62(self.id) {
            Ok(s) => Ok(s),
            Err(error) => Err(InvalidTrackId { detail: error.to_string() }),
        }
    }
}

} // verus!
