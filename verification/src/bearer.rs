//! The bearer token: an opaque byte sequence presented as a credential.

use vstd::prelude::*;
use vstd::slice::slice_to_vec;
use vstd::utf8::{decode_utf8, valid_utf8};

verus! {

/// An opaque credential. Whoever presents it is granted access, so it is
/// compared byte for byte and never interpreted by its holder.
#[derive(Debug)]
pub struct BearerToken(pub Vec<u8>);

impl View for BearerToken {
    type V = Seq<u8>;

    open spec fn view(&self) -> Seq<u8> {
        self.0@
    }
}

impl BearerToken {
    /// The token's bytes.
    pub fn as_bytes(&self) -> (r: &[u8])
        ensures
            r@ == self@,
    {
        self.0.as_slice()
    }

    /// The number of bytes in the token.
    pub fn len(&self) -> (r: usize)
        ensures
            r == self@.len(),
    {
        self.0.len()
    }

    /// The canonical textual rendering, `Bearer <content>`. Content bytes
    /// that are not text are rendered in a lossy way.
    pub fn render(&self) -> (r: String)
        ensures
            valid_utf8(self@) ==> r@ == "Bearer "@ + decode_utf8(self@),
    {
        let mut out = "Bearer ".to_owned();
        let content = lossy_utf8_string(self.0.as_slice());
        out.append(content.as_str());
        out
    }
}

/// Relies on `String::from_utf8_lossy`: on well-formed UTF-8 input it
/// returns exactly the decoded characters; elsewhere it substitutes
/// replacement characters, of which nothing is claimed.
#[verifier::external_body]
fn lossy_utf8_string(bytes: &[u8]) -> (r: String)
    ensures
        valid_utf8(bytes@) ==> r@ == decode_utf8(bytes@),
{
    String::from_utf8_lossy(bytes).into_owned()
}

impl From<Vec<u8>> for BearerToken {
    /// Wraps raw bytes as a token.
    fn from(value: Vec<u8>) -> (r: BearerToken) {
        BearerToken(value)
    }
}

impl vstd::std_specs::convert::FromSpecImpl<Vec<u8>> for BearerToken {
    open spec fn obeys_from_spec() -> bool {
        true
    }

    open spec fn from_spec(value: Vec<u8>) -> BearerToken {
        BearerToken(value)
    }
}

impl Clone for BearerToken {
    /// An identical copy of the token.
    fn clone(&self) -> (r: BearerToken)
        ensures
            r@ == self@,
    {
        BearerToken(slice_to_vec(self.0.as_slice()))
    }
}

impl PartialEq for BearerToken {
    /// Structural equality: byte for byte.
    fn eq(&self, other: &BearerToken) -> (r: bool) {
        bytes_eq(self.0.as_slice(), other.0.as_slice())
    }
}

impl vstd::std_specs::cmp::PartialEqSpecImpl for BearerToken {
    open spec fn obeys_eq_spec() -> bool {
        true
    }

    open spec fn eq_spec(&self, other: &BearerToken) -> bool {
        self@ == other@
    }
}

impl Eq for BearerToken {}

/// Whether two byte sequences hold the same bytes.
pub fn bytes_eq(a: &[u8], b: &[u8]) -> (r: bool)
    ensures
        r == (a@ == b@),
{
    if a.len() != b.len() {
        proof {
            assert(a@.len() != b@.len());
        }
        return false;
    }
    let n = a.len();
    let mut i: usize = 0;
    while i < n
        invariant
            n == a@.len() == b@.len(),
            0 <= i <= n,
            forall|j: int| 0 <= j < i ==> a@[j] == b@[j],
        decreases n - i,
    {
        if a[i] != b[i] {
            return false;
        }
        i += 1;
    }
    proof {
        assert(a@ =~= b@);
    }
    true
}

} // verus!
