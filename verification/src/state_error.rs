//! Why a slot of the store holds no content.
use vstd::prelude::*;

verus! {

/// A reason why content is unavailable.
///
/// Every slot starts out as `Loading`. The other variants say which step of
/// a fetch failed; where there is one, they carry the failure's message.
#[derive(Debug)]
pub enum StateError {
    Loading,
    DbError,
    UrlParseError(String),
    NetError(String),
    IoError(String),
    XmlError(String),
}

/// The mathematical value of a [`StateError`].
pub enum StateErrorView {
    Loading,
    DbError,
    UrlParseError(Seq<char>),
    NetError(Seq<char>),
    IoError(Seq<char>),
    XmlError(Seq<char>),
}

impl StateErrorView {
    /// Whether two errors are of the same variant, whatever they carry.
    pub open spec fn same_kind(self, other: StateErrorView) -> bool {
        match (self, other) {
            (StateErrorView::Loading, StateErrorView::Loading) => true,
            (StateErrorView::DbError, StateErrorView::DbError) => true,
            (StateErrorView::UrlParseError(_), StateErrorView::UrlParseError(_)) => true,
            (StateErrorView::NetError(_), StateErrorView::NetError(_)) => true,
            (StateErrorView::IoError(_), StateErrorView::IoError(_)) => true,
            (StateErrorView::XmlError(_), StateErrorView::XmlError(_)) => true,
            _ => false,
        }
    }

    /// The text shown to the user for this error.
    pub open spec fn message(self) -> Seq<char> {
        match self {
            StateErrorView::Loading => "Loading..."@,
            StateErrorView::DbError => "Database error..."@,
            StateErrorView::UrlParseError(cause) => "Could not parse URL: "@ + cause,
            StateErrorView::NetError(cause) => "Network error: "@ + cause,
            StateErrorView::IoError(cause) => "IO Error: "@ + cause,
            StateErrorView::XmlError(cause) => "Xml Error: "@ + cause,
        }
    }
}

impl View for StateError {
    type V = StateErrorView;

    open spec fn view(&self) -> StateErrorView {
        match *self {
            StateError::Loading => StateErrorView::Loading,
            StateError::DbError => StateErrorView::DbError,
            StateError::UrlParseError(cause) => StateErrorView::UrlParseError(cause@),
            StateError::NetError(cause) => StateErrorView::NetError(cause@),
            StateError::IoError(cause) => StateErrorView::IoError(cause@),
            StateError::XmlError(cause) => StateErrorView::XmlError(cause@),
        }
    }
}

impl StateError {
    /// The text shown to the user for this error.
    pub fn message(&self) -> (text: String)
        ensures
            text@ == self@.message(),
    {
        match self {
            StateError::Loading => String::from_str("Loading..."),
            StateError::DbError => String::from_str("Database error..."),
            StateError::UrlParseError(cause) => String::from_str("Could not parse URL: ").concat(
                cause.as_str(),
            ),
            StateError::NetError(cause) => String::from_str("Network error: ").concat(
                cause.as_str(),
            ),
            StateError::IoError(cause) => String::from_str("IO Error: ").concat(cause.as_str()),
            StateError::XmlError(cause) => String::from_str("Xml Error: ").concat(cause.as_str()),
        }
    }
}

impl Clone for StateError {
    fn clone(&self) -> (copy: Self)
        ensures
            copy == *self,
    {
        match self {
            StateError::Loading => StateError::Loading,
            StateError::DbError => StateError::DbError,
            StateError::UrlParseError(cause) => StateError::UrlParseError(cause.clone()),
            StateError::NetError(cause) => StateError::NetError(cause.clone()),
            StateError::IoError(cause) => StateError::IoError(cause.clone()),
            StateError::XmlError(cause) => StateError::XmlError(cause.clone()),
        }
    }
}

impl Default for StateError {
    fn default() -> (error: Self)
        ensures
            error == StateError::Loading,
    {
        StateError::Loading
    }
}

impl PartialEq for StateError {
    /// Errors compare by variant alone.
    fn eq(&self, other: &StateError) -> (same: bool) {
        match (self, other) {
            (StateError::Loading, StateError::Loading) => true,
            (StateError::DbError, StateError::DbError) => true,
            (StateError::UrlParseError(_), StateError::UrlParseError(_)) => true,
            (StateError::NetError(_), StateError::NetError(_)) => true,
            (StateError::IoError(_), StateError::IoError(_)) => true,
            (StateError::XmlError(_), StateError::XmlError(_)) => true,
            _ => false,
        }
    }
}

impl vstd::std_specs::cmp::PartialEqSpecImpl for StateError {
    open spec fn obeys_eq_spec() -> bool {
        true
    }

    open spec fn eq_spec(&self, other: &StateError) -> bool {
        self@.same_kind(other@)
    }
}

} // verus!
