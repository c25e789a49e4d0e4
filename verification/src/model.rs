//! Data shapes for the catalog: one search result entry, its attributes,
//! and the error taxonomy of the catalog client.

use vstd::prelude::*;

verus! {

/// The attribute block of one catalog entry. Every field but the title is
/// optional: the remote service omits fields it has no data for.
pub struct AnimeAttributes {
    /// Display name of the entry; always present.
    pub canonical_title: String,
    /// Free-text description, if any.
    pub synopsis: Option<String>,
    /// String-encoded rating as the service reports it; kept opaque.
    pub average_rating: Option<String>,
    /// First air date, ISO-like string.
    pub start_date: Option<String>,
    /// Last air date; absent while the entry is ongoing.
    pub end_date: Option<String>,
    /// Airing status (`finished`, `current`, `upcoming`, or other).
    pub status: Option<String>,
    /// Number of episodes, if known.
    pub episode_count: Option<u16>,
}

/// One catalog entry: the service-assigned identifier plus its attributes.
pub struct AnimeData {
    /// Opaque identifier, unique per entry.
    pub id: String,
    /// The entry's attribute block.
    pub attributes: AnimeAttributes,
}

/// Why a search failed: either the request never produced a response, or
/// the response body did not match the expected schema.
pub enum ClientError {
    /// The outbound request could not be sent or got no response.
    Transport(String),
    /// The response body was malformed or schema-mismatched.
    Decode(String),
}

/// The human-readable message of a [`ClientError`], as a sequence of
/// characters: a fixed context prefix followed by the detail text.
pub open spec fn spec_error_message(e: ClientError) -> Seq<char> {
    match e {
        ClientError::Transport(d) => "Failed to send request to kitsu API: "@ + d@,
        ClientError::Decode(d) => "Failed to parse anime data: "@ + d@,
    }
}

impl ClientError {
    /// Renders the error as one human-readable line.
    pub fn message(&self) -> (m: String)
        ensures
            m@ == spec_error_message(*self),
    {
        match self {
            ClientError::Transport(d) => {
                let mut m = String::from_str("Failed to send request to kitsu API: ");
                m.append(d.as_str());
                m
            },
            ClientError::Decode(d) => {
                let mut m = String::from_str("Failed to parse anime data: ");
                m.append(d.as_str());
                m
            },
        }
    }
}

} // verus!
