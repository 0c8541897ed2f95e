use vstd::prelude::*;

verus! {

/// A name for what `str::encode_utf16` produces, serialized to
/// little-endian bytes: it depends on the characters alone.
pub uninterp spec fn utf16le_of(s: Seq<char>) -> Seq<u8>;

/// Relies on str::encode_utf16: the UTF-16 code units of the string, here
/// laid out as little-endian byte pairs. The unit count depends only on
/// the characters; a string encodes to no bytes exactly when it is empty,
/// as every character yields at least one code unit.
#[verifier::external_body]
pub(crate) fn utf16le_bytes(s: &str) -> (r: Vec<u8>)
    ensures
        r@ == utf16le_of(s@),
        r@.len() % 2 == 0,
        s@.len() == 0 <==> r@.len() == 0,
{
    let mut out = Vec::new();
    for unit in s.encode_utf16() {
        let b = unit.to_le_bytes();
        out.push(b[0]);
        out.push(b[1]);
    }
    out
}

/// A password for encrypted entries, stored as the UTF-16LE bytes the key
/// derivation consumes.
#[derive(Debug, Clone)]
pub struct Password(Vec<u8>);

impl Password {
    /// The stored bytes.
    pub closed spec fn spec_bytes(&self) -> Seq<u8> {
        self.0@
    }

    /// Creates a new [`Password`] from the given password string,
    /// encoded as UTF-16LE.
    pub fn new(password: &str) -> (r: Password)
        ensures
            r.spec_bytes() == utf16le_of(password@),
            r.spec_bytes().len() == 0 <==> password@.len() == 0,
    {
        Password(utf16le_bytes(password))
    }

    /// Creates a new [`Password`] from the given raw bytes.
    pub fn from_raw(bytes: &[u8]) -> (r: Password)
        ensures
            r.spec_bytes() == bytes@,
    {
        let mut v: Vec<u8> = Vec::new();
        let mut i: usize = 0;
        while i < bytes.len()
            invariant
                v@ =~= bytes@.subrange(0, i as int),
                i <= bytes@.len(),
            decreases bytes@.len() - i,
        {
            v.push(bytes[i]);
            proof {
                assert(v@ =~= bytes@.subrange(0, i + 1));
            }
            i = i + 1;
        }
        proof {
            assert(v@ =~= bytes@);
        }
        Password(v)
    }

    /// Creates an empty password.
    pub fn empty() -> (r: Password)
        ensures
            r.spec_bytes().len() == 0,
    {
        Password(Vec::new())
    }

    /// The byte representation of the password.
    pub fn as_slice(&self) -> (r: &[u8])
        ensures
            r@ == self.spec_bytes(),
    {
        self.0.as_slice()
    }

    /// Whether the password is empty.
    pub fn is_empty(&self) -> (r: bool)
        ensures
            r <==> self.spec_bytes().len() == 0,
    {
        self.0.len() == 0
    }
}

} // verus!
