//! Taking in a version catalog that was fetched.
//!
//! A catalog is asked for once, without a second try: a feed that fails,
//! cannot be read or lists nothing must be seen as such, each by an error of
//! its own.

use vstd::prelude::*;

verus! {

/// How the request for a catalog ended.
#[derive(Debug)]
pub enum CatalogResponse<V> {
    /// The request failed in transport, with this cause.
    TransportFailed(String),
    /// The answer could not be read as a catalog, for this reason.
    Unreadable(String),
    /// The answer was read: the entries, in the order of the feed.
    Read(Vec<V>),
}

/// Why there is no catalog.
#[derive(Debug)]
pub enum CatalogError {
    /// The request failed in transport.
    Transport(String),
    /// The answer could not be read.
    Unreadable(String),
    /// The answer lists no version.
    Empty,
}

/// The catalog of a response: its entries, in their order, where it has
/// any; else the error that says what went wrong.
pub fn catalog<V>(response: CatalogResponse<V>) -> (res: Result<Vec<V>, CatalogError>)
    ensures
        res == match response {
            CatalogResponse::TransportFailed(cause) => Err::<Vec<V>, CatalogError>(
                CatalogError::Transport(cause),
            ),
            CatalogResponse::Unreadable(reason) => Err(CatalogError::Unreadable(reason)),
            CatalogResponse::Read(entries) => if entries@.len() == 0 {
                Err(CatalogError::Empty)
            } else {
                Ok(entries)
            },
        },
{
    match response {
        CatalogResponse::TransportFailed(cause) => Err(CatalogError::Transport(cause)),
        CatalogResponse::Unreadable(reason) => Err(CatalogError::Unreadable(reason)),
        CatalogResponse::Read(entries) => {
            if entries.len() == 0 {
                Err(CatalogError::Empty)
            } else {
                Ok(entries)
            }
        },
    }
}

impl CatalogError {
    /// The text of the failure.
    pub open spec fn text(&self) -> Seq<char> {
        match self {
            CatalogError::Transport(cause) => "could not fetch the version list: "@ + cause@,
            CatalogError::Unreadable(reason) => "could not read the version list: "@ + reason@,
            CatalogError::Empty => "the version list is empty"@,
        }
    }

    /// The failure as text.
    pub fn to_string(&self) -> (res: String)
        ensures
            res@ == self.text(),
    {
        match self {
            CatalogError::Transport(cause) => String::from_str(
                "could not fetch the version list: ",
            ).concat(cause.as_str()),
            CatalogError::Unreadable(reason) => String::from_str(
                "could not read the version list: ",
            ).concat(reason.as_str()),
            CatalogError::Empty => String::from_str("the version list is empty"),
        }
    }
}

} // verus!
