//! The repeating-key XOR cipher of the file encryption tool.

use vstd::prelude::*;
use vstd::string::StringSliceAdditionalSpecFns;

verus! {

/// `data` with every byte XORed with the key byte at the same position, the
/// key repeated as often as needed.
pub open spec fn xor_with(data: Seq<u8>, key: Seq<u8>) -> Seq<u8>
    recommends
        key.len() > 0,
{
    Seq::new(data.len(), |i: int| data[i] ^ key[i % key.len() as int])
}

/// A key with at least one character has at least one byte.
pub proof fn lemma_key_has_bytes(key: &str)
    requires
        key@.len() > 0,
    ensures
        key.spec_bytes().len() > 0,
{
    let chars = key@;
    assert(vstd::utf8::encode_utf8(chars) == vstd::utf8::encode_scalar(chars[0] as u32)
        + vstd::utf8::encode_utf8(chars.drop_first()));
    assert(vstd::utf8::encode_scalar(chars[0] as u32).len() > 0);
}

/// Applying the same key twice gives the data back.
pub proof fn lemma_xor_twice(data: Seq<u8>, key: Seq<u8>)
    requires
        key.len() > 0,
    ensures
        xor_with(xor_with(data, key), key) == data,
{
    assert forall|i: int| 0 <= i < data.len() implies xor_with(xor_with(data, key), key)[i]
        == data[i] by {
        let d: u8 = data[i];
        let k: u8 = key[i % key.len() as int];
        assert((d ^ k) ^ k == d) by (bit_vector);
    }
    assert(xor_with(xor_with(data, key), key) =~= data);
}

/// Encrypts `data` with the bytes of `key`, repeated over the length of the
/// data. Empty data needs no key; any other data needs a key that is not
/// empty.
pub fn xor_encrypt(data: &[u8], key: &str) -> (result: Vec<u8>)
    requires
        data@.len() == 0 || key@.len() > 0,
    ensures
        result@ == xor_with(data@, key.spec_bytes()),
{
    let key_bytes: &[u8] = key.as_bytes();
    let mut result: Vec<u8> = Vec::with_capacity(data.len());
    let mut i: usize = 0;
    proof {
        if key@.len() > 0 {
            lemma_key_has_bytes(key);
        }
    }
    while i < data.len()
        invariant
            i <= data@.len(),
            key_bytes@ == key.spec_bytes(),
            data@.len() == 0 || key_bytes@.len() > 0,
            result@ == xor_with(data@.take(i as int), key_bytes@),
        decreases data.len() - i,
    {
        let key_byte: u8 = key_bytes[i % key_bytes.len()];
        result.push(data[i] ^ key_byte);
        i += 1;
        assert(result@ =~= xor_with(data@.take(i as int), key_bytes@));
    }
    assert(data@.take(i as int) =~= data@);
    result
}

/// Decrypts what `xor_encrypt` produced with the same key: the cipher is its
/// own inverse.
pub fn xor_decrypt(data: &[u8], key: &str) -> (result: Vec<u8>)
    requires
        data@.len() == 0 || key@.len() > 0,
    ensures
        result@ == xor_with(data@, key.spec_bytes()),
        forall|plain: Seq<u8>|
            data@ == #[trigger] xor_with(plain, key.spec_bytes()) && key@.len() > 0 ==> result@
                == plain,
{
    proof {
        assert forall|plain: Seq<u8>|
            data@ == #[trigger] xor_with(plain, key.spec_bytes()) && key@.len() > 0 implies xor_with(
            data@,
            key.spec_bytes(),
        ) == plain by {
            lemma_key_has_bytes(key);
            lemma_xor_twice(plain, key.spec_bytes());
        }
    }
    xor_encrypt(data, key)
}

} // verus!
