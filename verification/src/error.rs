//! Why a configuration is refused.

use vstd::prelude::*;
use vstd::string::StringExecFns;

verus! {

/// Why a configuration was refused.
#[derive(Clone, Debug, PartialEq, Eq)]
pub enum ConfigError {
    /// A lane entry without a `:`; holds the entry.
    BadLaneEntry(String),
    /// A lane entry whose coordinate is no 32-bit number; holds the
    /// coordinate as written.
    BadCoordinate(String),
    /// A key that is not one single ASCII character; holds the key.
    KeyNotSingleChar(String),
    /// A key that is neither a letter nor a digit; holds the key.
    KeyNotAlphanumeric(String),
    /// The lane list holds no lane.
    NoLanes,
}

/// A `ConfigError` with each text as its characters.
pub enum ConfigErrorView {
    BadLaneEntry(Seq<char>),
    BadCoordinate(Seq<char>),
    KeyNotSingleChar(Seq<char>),
    KeyNotAlphanumeric(Seq<char>),
    NoLanes,
}

impl View for ConfigError {
    type V = ConfigErrorView;

    open spec fn view(&self) -> ConfigErrorView {
        match self {
            ConfigError::BadLaneEntry(s) => ConfigErrorView::BadLaneEntry(s@),
            ConfigError::BadCoordinate(s) => ConfigErrorView::BadCoordinate(s@),
            ConfigError::KeyNotSingleChar(s) => ConfigErrorView::KeyNotSingleChar(s@),
            ConfigError::KeyNotAlphanumeric(s) => ConfigErrorView::KeyNotAlphanumeric(s@),
            ConfigError::NoLanes => ConfigErrorView::NoLanes,
        }
    }
}

impl ConfigErrorView {
    /// The message shown to the operator.
    pub open spec fn message(self) -> Seq<char> {
        match self {
            ConfigErrorView::BadLaneEntry(s) => "Bad lane entry (expected x:key): "@ + s,
            ConfigErrorView::BadCoordinate(s) => "Bad x coordinate: "@ + s,
            ConfigErrorView::KeyNotSingleChar(s) => "Unsupported key (expected single char): "@
                + s,
            ConfigErrorView::KeyNotAlphanumeric(s) => "Unsupported key (a-z/0-9 only): "@ + s,
            ConfigErrorView::NoLanes => "No lanes parsed from LANES"@,
        }
    }
}

impl ConfigError {
    /// The message shown to the operator.
    pub fn message(&self) -> (msg: String)
        ensures
            msg@ == self@.message(),
    {
        match self {
            ConfigError::BadLaneEntry(s) => String::from_str(
                "Bad lane entry (expected x:key): ",
            ).concat(s.as_str()),
            ConfigError::BadCoordinate(s) => String::from_str("Bad x coordinate: ").concat(
                s.as_str(),
            ),
            ConfigError::KeyNotSingleChar(s) => String::from_str(
                "Unsupported key (expected single char): ",
            ).concat(s.as_str()),
            ConfigError::KeyNotAlphanumeric(s) => String::from_str(
                "Unsupported key (a-z/0-9 only): ",
            ).concat(s.as_str()),
            ConfigError::NoLanes => String::from_str("No lanes parsed from LANES"),
        }
    }
}

} // verus!
