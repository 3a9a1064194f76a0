//! Output envelope codec: the structured record carried by binary frames.
//!
//! On the wire a record is a JSON object whose members are strings:
//! `{"Kind": "StdOut", "Data": "..."}`.
use vstd::prelude::*;

verus! {

/// The stream a record is meant for.
#[derive(Clone, Copy, Debug, PartialEq, Eq, Structural)]
pub enum OutputKind {
    StdOut,
    StdErr,
    Console,
    /// Reserved or unknown kinds; such records are dropped.
    Other,
}

/// One decoded output record.
#[derive(Clone, Debug)]
pub struct OutputRecord {
    pub kind: OutputKind,
    pub data: String,
}

/// The bytes of a binary frame are not a well-formed record.
#[derive(Clone, Copy, Debug, PartialEq, Eq, Structural)]
pub enum DecodeError {
    Malformed,
}

#[verifier::external_type_specification]
#[verifier::external_body]
pub struct ExJsonError(serde_json::Error);

/// The members of a JSON object whose values are all strings, in key order,
/// or `None` where the bytes are not such an object.
pub uninterp spec fn json_string_members(b: Seq<u8>) -> Option<Seq<(Seq<char>, Seq<char>)>>;

pub open spec fn members_view(ms: Seq<(String, String)>) -> Seq<(Seq<char>, Seq<char>)> {
    ms.map_values(|p: (String, String)| (p.0@, p.1@))
}

/// Relies on serde_json::from_slice into a `BTreeMap<String, String>`: it
/// succeeds exactly on a JSON object of string members, which the map then
/// lists in key order.
#[verifier::external_body]
fn parse_string_members(b: &[u8]) -> (r: Result<Vec<(String, String)>, serde_json::Error>)
    ensures
        match r {
            Ok(v) => json_string_members(b@) == Some(members_view(v@)),
            Err(_) => json_string_members(b@) is None,
        },
{
    match serde_json::from_slice::<std::collections::BTreeMap<String, String>>(b) {
        Ok(m) => Ok(m.into_iter().collect()),
        Err(e) => Err(e),
    }
}

/// The value of the first member named `key`.
pub open spec fn member_value(ms: Seq<(Seq<char>, Seq<char>)>, key: Seq<char>) -> Option<Seq<char>>
    decreases ms.len(),
{
    if ms.len() == 0 {
        None
    } else if ms[0].0 == key {
        Some(ms[0].1)
    } else {
        member_value(ms.drop_first(), key)
    }
}

pub open spec fn kind_of_name(n: Seq<char>) -> OutputKind {
    if n == "StdOut"@ {
        OutputKind::StdOut
    } else if n == "StdErr"@ {
        OutputKind::StdErr
    } else if n == "Console"@ {
        OutputKind::Console
    } else {
        OutputKind::Other
    }
}

/// The record that a list of members describes: it needs a `Kind` and a
/// `Data` member.
pub open spec fn record_of_members(ms: Seq<(Seq<char>, Seq<char>)>) -> Option<(OutputKind, Seq<char>)> {
    match (member_value(ms, "Kind"@), member_value(ms, "Data"@)) {
        (Some(k), Some(d)) => Some((kind_of_name(k), d)),
        _ => None,
    }
}

/// The record that `b` encodes, if it is well formed.
pub open spec fn envelope_of(b: Seq<u8>) -> Option<(OutputKind, Seq<char>)> {
    match json_string_members(b) {
        Some(ms) => record_of_members(ms),
        None => None,
    }
}

impl OutputRecord {
    pub open spec fn spec_pair(self) -> (OutputKind, Seq<char>) {
        (self.kind, self.data@)
    }
}

fn find_member(ms: &Vec<(String, String)>, key: &str) -> (r: Option<usize>)
    ensures
        match r {
            Some(i) => i < ms@.len() && member_value(members_view(ms@), key@) == Some(ms@[i as int].1@),
            None => member_value(members_view(ms@), key@) is None,
        },
{
    let k = key.to_owned();
    let ghost mv = members_view(ms@);
    let mut i: usize = 0;
    assert(mv.subrange(0, mv.len() as int) =~= mv);
    while i < ms.len()
        invariant
            i <= ms@.len(),
            k@ == key@,
            mv == members_view(ms@),
            member_value(mv, key@) == member_value(mv.subrange(i as int, mv.len() as int), key@),
        decreases ms@.len() - i,
    {
        let ghost rest = mv.subrange(i as int, mv.len() as int);
        assert(rest.drop_first() =~= mv.subrange(i + 1, mv.len() as int));
        if ms[i].0 == k {
            return Some(i);
        }
        i = i + 1;
    }
    None
}

fn kind_from_name(n: &String) -> (r: OutputKind)
    ensures
        r == kind_of_name(n@),
{
    if *n == "StdOut".to_owned() {
        OutputKind::StdOut
    } else if *n == "StdErr".to_owned() {
        OutputKind::StdErr
    } else if *n == "Console".to_owned() {
        OutputKind::Console
    } else {
        OutputKind::Other
    }
}

/// Builds the record that a list of string members describes.
pub fn record_from_members(ms: &Vec<(String, String)>) -> (r: Option<OutputRecord>)
    ensures
        match r {
            Some(rec) => record_of_members(members_view(ms@)) == Some(rec.spec_pair()),
            None => record_of_members(members_view(ms@)) is None,
        },
{
    let ki = find_member(ms, "Kind");
    let di = find_member(ms, "Data");
    match (ki, di) {
        (Some(k), Some(d)) => {
            let kind = kind_from_name(&ms[k].1);
            Some(OutputRecord { kind, data: ms[d].1.clone() })
        },
        _ => None,
    }
}

/// Decodes the payload of a binary frame; malformed bytes give
/// `DecodeError::Malformed`.
pub fn decode(b: &[u8]) -> (r: Result<OutputRecord, DecodeError>)
    ensures
        match r {
            Ok(rec) => envelope_of(b@) == Some(rec.spec_pair()),
            Err(e) => envelope_of(b@) is None && e == DecodeError::Malformed,
        },
{
    match parse_string_members(b) {
        Ok(ms) => match record_from_members(&ms) {
            Some(rec) => Ok(rec),
            None => Err(DecodeError::Malformed),
        },
        Err(_) => Err(DecodeError::Malformed),
    }
}

} // verus!
