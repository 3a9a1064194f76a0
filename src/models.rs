//! Plain data types shared with the rest of the command line.
use vstd::prelude::*;

verus! {

/// The formats in which a resource can be displayed; `Yaml` by default.
#[derive(Clone, Copy, Debug, PartialEq, Eq, Structural)]
pub enum DisplayFormat {
    Yaml,
    Toml,
    Json,
}

pub open spec fn format_name(f: DisplayFormat) -> Seq<char> {
    match f {
        DisplayFormat::Yaml => "yaml"@,
        DisplayFormat::Toml => "toml"@,
        DisplayFormat::Json => "json"@,
    }
}

impl DisplayFormat {
    /// The lower-case name of the format.
    pub fn to_string(&self) -> (r: String)
        ensures
            r@ == format_name(*self),
    {
        match self {
            DisplayFormat::Yaml => "yaml".to_owned(),
            DisplayFormat::Toml => "toml".to_owned(),
            DisplayFormat::Json => "json".to_owned(),
        }
    }
}

impl Default for DisplayFormat {
    fn default() -> (r: DisplayFormat)
        ensures
            r == DisplayFormat::Yaml,
    {
        DisplayFormat::Yaml
    }
}

/// A number of replicas, or `Auto` to let the cluster decide (with at least
/// one replica).
#[derive(Clone, Copy, Debug, PartialEq, Eq, Structural)]
pub enum ReplicaValue {
    Number(i64),
    Auto,
}

/// The least and the largest number of replicas of a cargo.
#[derive(Clone, Copy, Debug, PartialEq, Eq, Structural)]
pub struct CargoReplication {
    pub min_replicas: Option<i64>,
    pub max_replicas: Option<i64>,
}

} // verus!
