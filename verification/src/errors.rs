//! Error values of the library.
//!
//! Each `Invalid*` type carries the text that describes the failure; its view
//! is that text. [`MprisError`] is what player operations report.
use vstd::prelude::*;
use vstd::std_specs::convert::FromSpecImpl;

verus! {

/// A playback status was given as a string that names no status.
#[derive(Debug, Clone, PartialEq, Eq, PartialOrd, Ord, Hash)]
pub struct InvalidPlaybackStatus(pub String);

impl View for InvalidPlaybackStatus {
    type V = Seq<char>;

    open spec fn view(&self) -> Seq<char> {
        self.0@
    }
}

impl InvalidPlaybackStatus {
    /// The text of the error.
    pub fn to_string(&self) -> (text: String)
        ensures
            text@ == self@,
    {
        self.0.clone()
    }
}

impl FromSpecImpl<String> for InvalidPlaybackStatus {
    open spec fn obeys_from_spec() -> bool {
        true
    }

    open spec fn from_spec(value: String) -> Self {
        InvalidPlaybackStatus(value)
    }
}

impl From<String> for InvalidPlaybackStatus {
    fn from(value: String) -> (error: Self)
        ensures
            error@ == value@,
    {
        InvalidPlaybackStatus(value)
    }
}

impl<'a> FromSpecImpl<&'a str> for InvalidPlaybackStatus {
    open spec fn obeys_from_spec() -> bool {
        false
    }

    open spec fn from_spec(value: &'a str) -> Self {
        arbitrary()
    }
}

impl<'a> From<&'a str> for InvalidPlaybackStatus {
    fn from(value: &'a str) -> (error: Self)
        ensures
            error@ == value@,
    {
        InvalidPlaybackStatus(value.to_owned())
    }
}

/// A loop status was given as a string that names no status.
#[derive(Debug, Clone, PartialEq, Eq, PartialOrd, Ord, Hash)]
pub struct InvalidLoopStatus(pub String);

impl View for InvalidLoopStatus {
    type V = Seq<char>;

    open spec fn view(&self) -> Seq<char> {
        self.0@
    }
}

impl InvalidLoopStatus {
    /// The text of the error.
    pub fn to_string(&self) -> (text: String)
        ensures
            text@ == self@,
    {
        self.0.clone()
    }
}

impl FromSpecImpl<String> for InvalidLoopStatus {
    open spec fn obeys_from_spec() -> bool {
        true
    }

    open spec fn from_spec(value: String) -> Self {
        InvalidLoopStatus(value)
    }
}

impl From<String> for InvalidLoopStatus {
    fn from(value: String) -> (error: Self)
        ensures
            error@ == value@,
    {
        InvalidLoopStatus(value)
    }
}

impl<'a> FromSpecImpl<&'a str> for InvalidLoopStatus {
    open spec fn obeys_from_spec() -> bool {
        false
    }

    open spec fn from_spec(value: &'a str) -> Self {
        arbitrary()
    }
}

impl<'a> From<&'a str> for InvalidLoopStatus {
    fn from(value: &'a str) -> (error: Self)
        ensures
            error@ == value@,
    {
        InvalidLoopStatus(value.to_owned())
    }
}

/// A track identifier was refused; the text says why.
#[derive(Debug, Clone, PartialEq, Eq, PartialOrd, Ord, Hash)]
pub struct InvalidTrackID(pub String);

impl View for InvalidTrackID {
    type V = Seq<char>;

    open spec fn view(&self) -> Seq<char> {
        self.0@
    }
}

impl InvalidTrackID {
    /// The text of the error.
    pub fn to_string(&self) -> (text: String)
        ensures
            text@ == self@,
    {
        self.0.clone()
    }
}

impl FromSpecImpl<String> for InvalidTrackID {
    open spec fn obeys_from_spec() -> bool {
        true
    }

    open spec fn from_spec(value: String) -> Self {
        InvalidTrackID(value)
    }
}

impl From<String> for InvalidTrackID {
    fn from(value: String) -> (error: Self)
        ensures
            error@ == value@,
    {
        InvalidTrackID(value)
    }
}

impl<'a> FromSpecImpl<&'a str> for InvalidTrackID {
    open spec fn obeys_from_spec() -> bool {
        false
    }

    open spec fn from_spec(value: &'a str) -> Self {
        arbitrary()
    }
}

impl<'a> From<&'a str> for InvalidTrackID {
    fn from(value: &'a str) -> (error: Self)
        ensures
            error@ == value@,
    {
        InvalidTrackID(value.to_owned())
    }
}

/// A number of microseconds does not fit a duration; the text says why.
#[derive(Debug, Clone, PartialEq, Eq, PartialOrd, Ord, Hash)]
pub struct InvalidMprisDuration(pub String);

impl View for InvalidMprisDuration {
    type V = Seq<char>;

    open spec fn view(&self) -> Seq<char> {
        self.0@
    }
}

impl InvalidMprisDuration {
    /// The text of the error.
    pub fn to_string(&self) -> (text: String)
        ensures
            text@ == self@,
    {
        self.0.clone()
    }
}

impl FromSpecImpl<String> for InvalidMprisDuration {
    open spec fn obeys_from_spec() -> bool {
        true
    }

    open spec fn from_spec(value: String) -> Self {
        InvalidMprisDuration(value)
    }
}

impl From<String> for InvalidMprisDuration {
    fn from(value: String) -> (error: Self)
        ensures
            error@ == value@,
    {
        InvalidMprisDuration(value)
    }
}

impl<'a> FromSpecImpl<&'a str> for InvalidMprisDuration {
    open spec fn obeys_from_spec() -> bool {
        false
    }

    open spec fn from_spec(value: &'a str) -> Self {
        arbitrary()
    }
}

impl<'a> From<&'a str> for InvalidMprisDuration {
    fn from(value: &'a str) -> (error: Self)
        ensures
            error@ == value@,
    {
        InvalidMprisDuration(value.to_owned())
    }
}

impl InvalidMprisDuration {
    /// The error for a number of microseconds above [`crate::duration::MAX_MICROS`].
    pub fn new_too_big() -> (error: Self)
        ensures
            error@ == "can't create MprisDuration, value too big"@,
    {
        InvalidMprisDuration("can't create MprisDuration, value too big".to_owned())
    }

    /// The error for a negative number of microseconds.
    pub fn new_negative() -> (error: Self)
        ensures
            error@ == "can't create MprisDuration, value is negative"@,
    {
        InvalidMprisDuration("can't create MprisDuration, value is negative".to_owned())
    }
}

/// A metadata value has another shape than the one asked for.
#[derive(Debug, Clone, PartialEq, Eq, PartialOrd, Ord, Hash)]
pub struct InvalidMetadataValue(pub String);

impl View for InvalidMetadataValue {
    type V = Seq<char>;

    open spec fn view(&self) -> Seq<char> {
        self.0@
    }
}

impl InvalidMetadataValue {
    /// The text of the error.
    pub fn to_string(&self) -> (text: String)
        ensures
            text@ == self@,
    {
        self.0.clone()
    }
}

impl FromSpecImpl<String> for InvalidMetadataValue {
    open spec fn obeys_from_spec() -> bool {
        true
    }

    open spec fn from_spec(value: String) -> Self {
        InvalidMetadataValue(value)
    }
}

impl From<String> for InvalidMetadataValue {
    fn from(value: String) -> (error: Self)
        ensures
            error@ == value@,
    {
        InvalidMetadataValue(value)
    }
}

impl<'a> FromSpecImpl<&'a str> for InvalidMetadataValue {
    open spec fn obeys_from_spec() -> bool {
        false
    }

    open spec fn from_spec(value: &'a str) -> Self {
        arbitrary()
    }
}

impl<'a> From<&'a str> for InvalidMetadataValue {
    fn from(value: &'a str) -> (error: Self)
        ensures
            error@ == value@,
    {
        InvalidMetadataValue(value.to_owned())
    }
}

/// A raw metadata map cannot be read as metadata; the text says why.
#[derive(Debug, Clone, PartialEq, Eq, PartialOrd, Ord, Hash)]
pub struct InvalidMetadata(pub String);

impl View for InvalidMetadata {
    type V = Seq<char>;

    open spec fn view(&self) -> Seq<char> {
        self.0@
    }
}

impl InvalidMetadata {
    /// The text of the error.
    pub fn to_string(&self) -> (text: String)
        ensures
            text@ == self@,
    {
        self.0.clone()
    }
}

impl FromSpecImpl<String> for InvalidMetadata {
    open spec fn obeys_from_spec() -> bool {
        true
    }

    open spec fn from_spec(value: String) -> Self {
        InvalidMetadata(value)
    }
}

impl From<String> for InvalidMetadata {
    fn from(value: String) -> (error: Self)
        ensures
            error@ == value@,
    {
        InvalidMetadata(value)
    }
}

impl<'a> FromSpecImpl<&'a str> for InvalidMetadata {
    open spec fn obeys_from_spec() -> bool {
        false
    }

    open spec fn from_spec(value: &'a str) -> Self {
        arbitrary()
    }
}

impl<'a> From<&'a str> for InvalidMetadata {
    fn from(value: &'a str) -> (error: Self)
        ensures
            error@ == value@,
    {
        InvalidMetadata(value.to_owned())
    }
}

/// A playlist was refused; the text says why.
#[derive(Debug, Clone, PartialEq, Eq, PartialOrd, Ord, Hash)]
pub struct InvalidPlaylist(pub String);

impl View for InvalidPlaylist {
    type V = Seq<char>;

    open spec fn view(&self) -> Seq<char> {
        self.0@
    }
}

impl InvalidPlaylist {
    /// The text of the error.
    pub fn to_string(&self) -> (text: String)
        ensures
            text@ == self@,
    {
        self.0.clone()
    }
}

impl FromSpecImpl<String> for InvalidPlaylist {
    open spec fn obeys_from_spec() -> bool {
        true
    }

    open spec fn from_spec(value: String) -> Self {
        InvalidPlaylist(value)
    }
}

impl From<String> for InvalidPlaylist {
    fn from(value: String) -> (error: Self)
        ensures
            error@ == value@,
    {
        InvalidPlaylist(value)
    }
}

impl<'a> FromSpecImpl<&'a str> for InvalidPlaylist {
    open spec fn obeys_from_spec() -> bool {
        false
    }

    open spec fn from_spec(value: &'a str) -> Self {
        arbitrary()
    }
}

impl<'a> From<&'a str> for InvalidPlaylist {
    fn from(value: &'a str) -> (error: Self)
        ensures
            error@ == value@,
    {
        InvalidPlaylist(value.to_owned())
    }
}

/// A playlist ordering was given as a string that names no ordering.
#[derive(Debug, Clone, PartialEq, Eq, PartialOrd, Ord, Hash)]
pub struct InvalidPlaylistOrdering(pub String);

impl View for InvalidPlaylistOrdering {
    type V = Seq<char>;

    open spec fn view(&self) -> Seq<char> {
        self.0@
    }
}

impl InvalidPlaylistOrdering {
    /// The text of the error.
    pub fn to_string(&self) -> (text: String)
        ensures
            text@ == self@,
    {
        self.0.clone()
    }
}

impl FromSpecImpl<String> for InvalidPlaylistOrdering {
    open spec fn obeys_from_spec() -> bool {
        true
    }

    open spec fn from_spec(value: String) -> Self {
        InvalidPlaylistOrdering(value)
    }
}

impl From<String> for InvalidPlaylistOrdering {
    fn from(value: String) -> (error: Self)
        ensures
            error@ == value@,
    {
        InvalidPlaylistOrdering(value)
    }
}

impl<'a> FromSpecImpl<&'a str> for InvalidPlaylistOrdering {
    open spec fn obeys_from_spec() -> bool {
        false
    }

    open spec fn from_spec(value: &'a str) -> Self {
        arbitrary()
    }
}

impl<'a> From<&'a str> for InvalidPlaylistOrdering {
    fn from(value: &'a str) -> (error: Self)
        ensures
            error@ == value@,
    {
        InvalidPlaylistOrdering(value.to_owned())
    }
}

/// What an operation on a player can fail with.
#[derive(Debug, PartialEq, Clone)]
pub enum MprisError {
    /// The bus reported a failure; the text is the bus error's description.
    DbusError(String),
    /// The player answered with data that could not be read.
    ParseError(String),
    /// The player lacks the interface, method or signal that was asked for.
    Unsupported,
    /// Any other failure.
    Miscellaneous(String),
}

/// The mathematical value of an [`MprisError`].
pub enum MprisErrorView {
    DbusError(Seq<char>),
    ParseError(Seq<char>),
    Unsupported,
    Miscellaneous(Seq<char>),
}

impl View for MprisError {
    type V = MprisErrorView;

    open spec fn view(&self) -> MprisErrorView {
        match self {
            MprisError::DbusError(text) => MprisErrorView::DbusError(text@),
            MprisError::ParseError(text) => MprisErrorView::ParseError(text@),
            MprisError::Unsupported => MprisErrorView::Unsupported,
            MprisError::Miscellaneous(text) => MprisErrorView::Miscellaneous(text@),
        }
    }
}

impl FromSpecImpl<InvalidPlaybackStatus> for MprisError {
    open spec fn obeys_from_spec() -> bool {
        true
    }

    open spec fn from_spec(value: InvalidPlaybackStatus) -> Self {
        MprisError::ParseError(value.0)
    }
}

impl From<InvalidPlaybackStatus> for MprisError {
    fn from(value: InvalidPlaybackStatus) -> (error: Self)
        ensures
            error@ == MprisErrorView::ParseError(value@),
    {
        MprisError::ParseError(value.0)
    }
}

impl FromSpecImpl<InvalidLoopStatus> for MprisError {
    open spec fn obeys_from_spec() -> bool {
        true
    }

    open spec fn from_spec(value: InvalidLoopStatus) -> Self {
        MprisError::ParseError(value.0)
    }
}

impl From<InvalidLoopStatus> for MprisError {
    fn from(value: InvalidLoopStatus) -> (error: Self)
        ensures
            error@ == MprisErrorView::ParseError(value@),
    {
        MprisError::ParseError(value.0)
    }
}

impl FromSpecImpl<InvalidTrackID> for MprisError {
    open spec fn obeys_from_spec() -> bool {
        true
    }

    open spec fn from_spec(value: InvalidTrackID) -> Self {
        MprisError::ParseError(value.0)
    }
}

impl From<InvalidTrackID> for MprisError {
    fn from(value: InvalidTrackID) -> (error: Self)
        ensures
            error@ == MprisErrorView::ParseError(value@),
    {
        MprisError::ParseError(value.0)
    }
}

impl FromSpecImpl<InvalidMprisDuration> for MprisError {
    open spec fn obeys_from_spec() -> bool {
        true
    }

    open spec fn from_spec(value: InvalidMprisDuration) -> Self {
        MprisError::ParseError(value.0)
    }
}

impl From<InvalidMprisDuration> for MprisError {
    fn from(value: InvalidMprisDuration) -> (error: Self)
        ensures
            error@ == MprisErrorView::ParseError(value@),
    {
        MprisError::ParseError(value.0)
    }
}

impl FromSpecImpl<InvalidMetadata> for MprisError {
    open spec fn obeys_from_spec() -> bool {
        true
    }

    open spec fn from_spec(value: InvalidMetadata) -> Self {
        MprisError::ParseError(value.0)
    }
}

impl From<InvalidMetadata> for MprisError {
    fn from(value: InvalidMetadata) -> (error: Self)
        ensures
            error@ == MprisErrorView::ParseError(value@),
    {
        MprisError::ParseError(value.0)
    }
}

impl FromSpecImpl<InvalidPlaylistOrdering> for MprisError {
    open spec fn obeys_from_spec() -> bool {
        true
    }

    open spec fn from_spec(value: InvalidPlaylistOrdering) -> Self {
        MprisError::ParseError(value.0)
    }
}

impl From<InvalidPlaylistOrdering> for MprisError {
    fn from(value: InvalidPlaylistOrdering) -> (error: Self)
        ensures
            error@ == MprisErrorView::ParseError(value@),
    {
        MprisError::ParseError(value.0)
    }
}

impl FromSpecImpl<InvalidPlaylist> for MprisError {
    open spec fn obeys_from_spec() -> bool {
        true
    }

    open spec fn from_spec(value: InvalidPlaylist) -> Self {
        MprisError::ParseError(value.0)
    }
}

impl From<InvalidPlaylist> for MprisError {
    fn from(value: InvalidPlaylist) -> (error: Self)
        ensures
            error@ == MprisErrorView::ParseError(value@),
    {
        MprisError::ParseError(value.0)
    }
}

impl FromSpecImpl<String> for MprisError {
    open spec fn obeys_from_spec() -> bool {
        true
    }

    open spec fn from_spec(value: String) -> Self {
        MprisError::Miscellaneous(value)
    }
}

impl From<String> for MprisError {
    fn from(value: String) -> (error: Self)
        ensures
            error@ == MprisErrorView::Miscellaneous(value@),
    {
        MprisError::Miscellaneous(value)
    }
}

} // verus!
