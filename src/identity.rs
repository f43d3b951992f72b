//! The stable identifier of a tracked product's device.

use vstd::prelude::*;
use vstd::string::*;
use crate::text::{hex_of, hex_string, is_hex_digit, lemma_hex_of_shape};
use blake2::digest::VariableOutput;

verus! {

/// The four-byte BLAKE2s digest of `data`.
pub uninterp spec fn blake2s_4_of(data: Seq<u8>) -> Seq<u8>;

/// Relies on blake2's `Blake2sVar::digest_variable` (the `VariableOutput`
/// method): with a four-byte output buffer it fills it with the BLAKE2s digest
/// configured for four bytes, which depends on the input bytes alone.
#[verifier::external_body]
fn blake2s_4(data: &[u8]) -> (r: Vec<u8>)
    ensures
        r@ == blake2s_4_of(data@),
        r@.len() == 4,
{
    let mut out = vec![0u8; 4];
    let _ = blake2::Blake2sVar::digest_variable(data, &mut out);
    out
}

/// The identifier text of the product at `(shop_domain, product_key)`: the
/// digest of the shop domain's bytes followed by the product key's bytes, with
/// no separator, in lower-case hexadecimal.
pub open spec fn identity_hex(shop_domain: Seq<u8>, product_key: Seq<u8>) -> Seq<char> {
    hex_of(blake2s_4_of(shop_domain + product_key))
}

/// The identity of a tracked product; `hash` holds eight hexadecimal digits.
pub struct DeviceIdentity {
    pub hash: String,
}

impl View for DeviceIdentity {
    type V = Seq<char>;

    open spec fn view(&self) -> Seq<char> {
        self.hash@
    }
}

impl DeviceIdentity {
    /// Eight lower-case hexadecimal digits.
    pub open spec fn wf(&self) -> bool {
        &&& self@.len() == 8
        &&& forall|i: int| 0 <= i < 8 ==> is_hex_digit(#[trigger] self@[i])
    }

    /// The identifier text, as used in topics and identifiers.
    pub fn as_str(&self) -> (r: &str)
        ensures
            r@ == self@,
    {
        self.hash.as_str()
    }
}

/// Derives the identity of the product at `(shop_domain, product_key)`.
pub fn derive(shop_domain: &str, product_key: &str) -> (r: DeviceIdentity)
    ensures
        r@ == identity_hex(shop_domain.spec_bytes(), product_key.spec_bytes()),
        r.wf(),
{
    let mut data = shop_domain.as_bytes_vec();
    let mut tail = product_key.as_bytes_vec();
    data.append(&mut tail);
    let digest = blake2s_4(data.as_slice());
    let hash = hex_string(digest.as_slice());
    proof {
        lemma_hex_of_shape(digest@);
    }
    DeviceIdentity { hash }
}

/// Deriving twice from equal coordinates gives the same identity: the
/// identity depends on the two coordinates' bytes and nothing else.
pub proof fn derive_is_deterministic(
    shop_a: Seq<u8>,
    key_a: Seq<u8>,
    shop_b: Seq<u8>,
    key_b: Seq<u8>,
)
    requires
        shop_a == shop_b,
        key_a == key_b,
    ensures
        identity_hex(shop_a, key_a) == identity_hex(shop_b, key_b),
{
}

} // verus!
