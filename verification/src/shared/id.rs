use vstd::prelude::*;

verus! {

/// Identifier of a project, section or card: the 128 bits of a UUID.
///
/// The all-zero identifier (`nil`) marks an entity that has not been stored yet.
#[derive(Clone, Copy, Debug, PartialEq, Eq, Hash, Structural)]
pub struct Uuid(pub u128);

impl Uuid {
    /// The all-zero identifier.
    pub fn nil() -> (r: Uuid)
        ensures
            r.0 == 0,
    {
        Uuid(0)
    }

    /// The identifier with the given 128 bits.
    pub fn from_u128(bits: u128) -> (r: Uuid)
        ensures
            r.0 == bits,
    {
        Uuid(bits)
    }

    /// The 128 bits of the identifier.
    pub fn as_u128(&self) -> (r: u128)
        ensures
            r == self.0,
    {
        self.0
    }

    /// Whether this is the all-zero identifier.
    pub fn is_nil(&self) -> (r: bool)
        ensures
            r == (self.0 == 0),
    {
        self.0 == 0
    }
}

/// What `uuid::Uuid::parse_str(s)` gives for `s`: the 128 bits of the
/// identifier, or the text of the parse error.
pub uninterp spec fn uuid_parse_str(s: Seq<char>) -> Result<u128, Seq<char>>;

/// Calls `uuid::Uuid::parse_str` and hands back the identifier's 128 bits
/// or the error's text. The contract claims only that the outcome is a
/// function of `s`.
#[verifier::external_body]
pub(crate) fn parse_uuid(s: &str) -> (r: Result<Uuid, String>)
    ensures
        match r {
            Ok(u) => uuid_parse_str(s@) == Ok::<u128, Seq<char>>(u.0),
            Err(e) => uuid_parse_str(s@) == Err::<u128, Seq<char>>(e@),
        },
{
    match uuid::Uuid::parse_str(s) {
        Ok(u) => Ok(Uuid(u.as_u128())),
        Err(e) => Err(e.to_string()),
    }
}

/// Whether two optional identifiers are equal.
pub fn same_id(a: Option<Uuid>, b: Option<Uuid>) -> (r: bool)
    ensures
        r == (a == b),
{
    match (a, b) {
        (Some(x), Some(y)) => x.0 == y.0,
        (None, None) => true,
        _ => false,
    }
}

} // verus!
