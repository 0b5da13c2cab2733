//! The creature record: the domain entity fetched from the remote API.
use crate::digits::{decimal_of, u32_to_decimal};
use crate::random::{MAX_CREATURE_ID, MIN_CREATURE_ID};
use vstd::prelude::*;

verus! {

/// One creature as fetched from the API: its id, its name, and the URL of
/// its sprite image. Immutable once constructed.
#[derive(Debug, Clone, PartialEq, Eq)]
pub struct Creature {
    pub id: u32,
    pub name: String,
    pub image_url: String,
}

impl Creature {
    /// A creature is valid when its id lies in the range the application
    /// ever requests.
    pub open spec fn valid(self) -> bool {
        MIN_CREATURE_ID <= self.id <= MAX_CREATURE_ID
    }

    /// Builds a creature record from its three fields.
    pub fn new(id: u32, name: String, image_url: String) -> (r: Creature)
        requires
            MIN_CREATURE_ID <= id <= MAX_CREATURE_ID,
        ensures
            r.id == id,
            r.name == name,
            r.image_url == image_url,
            r.valid(),
    {
        Creature { id, name, image_url }
    }
}

/// The two creature fields that one JSON document yields: the value of its
/// top-level string member `name` and of its nested string member
/// `sprites.front_default`, or nothing when the text is not a JSON object
/// carrying both as strings. The JSON grammar is too large to restate here;
/// the fields are a function of the document text alone, and the contracts
/// that depend on them speak of this name.
pub uninterp spec fn creature_fields_of(text: Seq<char>) -> Option<(Seq<char>, Seq<char>)>;

/// Relies on `serde_json::from_str`, `serde_json::Value::get` and
/// `serde_json::Value::as_str`: parses the document and looks up the string
/// members `name` and `sprites.front_default`, a computation on the text
/// alone.
#[verifier::external_body]
fn extract_creature_fields(text: &str) -> (r: Option<(String, String)>)
    ensures
        r is Some <==> creature_fields_of(text@) is Some,
        r matches Some(p) ==> creature_fields_of(text@) matches Some(q) && p.0@ == q.0
            && p.1@ == q.1,
{
    let v: serde_json::Value = serde_json::from_str(text).ok()?;
    let name = v.get("name")?.as_str()?;
    let image = v.get("sprites")?.get("front_default")?.as_str()?;
    Some((name.to_owned(), image.to_owned()))
}

/// Parses one API response body into the creature record for the request
/// that fetched it. Returns the record exactly when the body yields both
/// the `name` and the `sprites.front_default` string members.
pub fn parse_creature(id: u32, body: &str) -> (r: Option<Creature>)
    requires
        MIN_CREATURE_ID <= id <= MAX_CREATURE_ID,
    ensures
        r is Some <==> creature_fields_of(body@) is Some,
        r matches Some(c) ==> creature_fields_of(body@) matches Some(q) && c.id == id
            && c.name@ == q.0 && c.image_url@ == q.1 && c.valid(),
{
    match extract_creature_fields(body) {
        Some((name, image_url)) => Some(Creature::new(id, name, image_url)),
        None => None,
    }
}

/// The request URL for one creature id.
pub open spec fn url_of(id: nat) -> Seq<char> {
    "https://pokeapi.co/api/v2/pokemon/"@ + decimal_of(id)
}

/// Builds the request URL for one creature id.
pub fn creature_url(id: u32) -> (r: String)
    ensures
        r@ == url_of(id as nat),
{
    let mut s = String::from_str("https://pokeapi.co/api/v2/pokemon/");
    s.append(u32_to_decimal(id).as_str());
    s
}

} // verus!
