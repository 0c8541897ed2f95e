use vstd::prelude::*;

use crate::encoder_options::AesEncoderOptions;
use crate::error::Error;

verus! {

/// A name for the SHA-256 digest of a byte sequence: a function of the
/// bytes alone.
pub uninterp spec fn sha256_of(data: Seq<u8>) -> Seq<u8>;

/// Relies on sha2::Sha256 through the Digest trait: one-shot SHA-256. The
/// digest is 32 bytes and depends on the input bytes alone.
#[verifier::external_body]
fn sha256(data: &Vec<u8>) -> (r: Vec<u8>)
    ensures
        r@ == sha256_of(data@),
        r@.len() == 32,
{
    let out = <sha2::Sha256 as sha2::Digest>::digest(data.as_slice());
    out.to_vec()
}

/// A name for AES-256-CBC decryption of whole blocks: a function of key,
/// initialization vector and ciphertext alone.
pub uninterp spec fn aes_cbc_decrypt_of(key: Seq<u8>, iv: Seq<u8>, data: Seq<u8>) -> Seq<u8>;

/// Relies on cbc::Decryptor over aes::Aes256, built with
/// KeyIvInit::new_from_slices and run with BlockModeDecrypt::decrypt_padded
/// under NoPadding: CBC decryption in place, preserving the length.
#[verifier::external_body]
fn aes_cbc_decrypt(key: &Vec<u8>, iv: &Vec<u8>, data: &mut Vec<u8>)
    requires
        key@.len() == 32,
        iv@.len() == 16,
        old(data)@.len() % 16 == 0,
    ensures
        final(data)@ == aes_cbc_decrypt_of(key@, iv@, old(data)@),
        final(data)@.len() == old(data)@.len(),
{
    let dec = match <cbc::Decryptor<aes::Aes256> as aes::cipher::KeyIvInit>::new_from_slices(
        key.as_slice(),
        iv.as_slice(),
    ) {
        Ok(d) => d,
        Err(_) => return ,
    };
    let _ = <cbc::Decryptor<aes::Aes256> as aes::cipher::BlockModeDecrypt>::decrypt_padded::<
        aes::cipher::block_padding::NoPadding,
    >(dec, data.as_mut_slice());
}

/// A name for AES-256-CBC encryption of whole blocks: a function of key,
/// initialization vector and plaintext alone.
pub uninterp spec fn aes_cbc_encrypt_of(key: Seq<u8>, iv: Seq<u8>, data: Seq<u8>) -> Seq<u8>;

/// Relies on cbc::Encryptor over aes::Aes256, built with
/// KeyIvInit::new_from_slices and run with BlockModeEncrypt::encrypt_padded
/// under NoPadding: CBC encryption in place, preserving the length. CBC
/// over whole blocks is a bijection for a fixed key and IV, and
/// cbc::Decryptor inverts it: decrypting the ciphertext returns the
/// plaintext.
#[verifier::external_body]
fn aes_cbc_encrypt(key: &Vec<u8>, iv: &Vec<u8>, data: &mut Vec<u8>)
    requires
        key@.len() == 32,
        iv@.len() == 16,
        old(data)@.len() % 16 == 0,
    ensures
        final(data)@ == aes_cbc_encrypt_of(key@, iv@, old(data)@),
        final(data)@.len() == old(data)@.len(),
        aes_cbc_decrypt_of(key@, iv@, final(data)@) == old(data)@,
{
    let enc = match <cbc::Encryptor<aes::Aes256> as aes::cipher::KeyIvInit>::new_from_slices(
        key.as_slice(),
        iv.as_slice(),
    ) {
        Ok(e) => e,
        Err(_) => return ,
    };
    let len = data.len();
    let _ = <cbc::Encryptor<aes::Aes256> as aes::cipher::BlockModeEncrypt>::encrypt_padded::<
        aes::cipher::block_padding::NoPadding,
    >(enc, data.as_mut_slice(), len);
}

/// What remains of `n` after `k` of its little-endian bytes were taken.
pub open spec fn spec_shift_down(n: int, k: int) -> int
    decreases k,
{
    if k <= 0 {
        n
    } else {
        spec_shift_down(n, k - 1) / 256
    }
}

/// The eight little-endian counter bytes of round `n`.
pub open spec fn round_counter(n: int) -> Seq<u8> {
    Seq::new(8, |i: int| (spec_shift_down(n, i) % 256) as u8)
}

/// The bytes hashed to derive an AES key: for every round, the salt, the
/// password and the round counter.
pub open spec fn derive_input(salt: Seq<u8>, password: Seq<u8>, rounds: int) -> Seq<u8>
    decreases rounds,
{
    if rounds <= 0 {
        Seq::empty()
    } else {
        derive_input(salt, password, rounds - 1) + salt + password + round_counter(rounds - 1)
    }
}

/// The salt length declared by AES property bytes.
pub open spec fn spec_salt_size(props: Seq<u8>) -> int {
    let b0 = props[0];
    let b1: u8 = if props.len() >= 2 {
        props[1]
    } else {
        0
    };
    (((b0 >> 7) & 1) + (b1 >> 4)) as int
}

/// The initialization-vector length declared by AES property bytes.
pub open spec fn spec_iv_size(props: Seq<u8>) -> int {
    let b0 = props[0];
    let b1: u8 = if props.len() >= 2 {
        props[1]
    } else {
        0
    };
    (((b0 >> 6) & 1) + (b1 & 15)) as int
}

/// Whether AES property bytes carry the salt and IV they declare.
pub open spec fn spec_props_wf(props: Seq<u8>) -> bool {
    props.len() >= 1 && 2 + spec_salt_size(props) + spec_iv_size(props) <= props.len()
}

/// The salt carried by AES property bytes.
pub open spec fn spec_parsed_salt(props: Seq<u8>) -> Seq<u8> {
    props.subrange(2, 2 + spec_salt_size(props))
}

/// The initialization vector carried by AES property bytes, zero-padded
/// to sixteen bytes.
pub open spec fn spec_parsed_iv(props: Seq<u8>) -> Seq<u8> {
    Seq::new(
        16,
        |i: int|
            if i < spec_iv_size(props) {
                props[2 + spec_salt_size(props) + i]
            } else {
                0u8
            },
    )
}

/// The key the format derives: for the direct marker, the salt then the
/// password then zeros, thirty-two bytes; otherwise SHA-256 over the
/// iterated derivation input.
pub open spec fn spec_aes_key(props: Seq<u8>, password: Seq<u8>) -> Seq<u8> {
    let ncp = props[0] & 63;
    let salt = spec_parsed_salt(props);
    if ncp == 0x3F {
        Seq::new(
            32,
            |i: int|
                if i < salt.len() {
                    salt[i]
                } else if i - salt.len() < password.len() {
                    password[i - salt.len()]
                } else {
                    0u8
                },
        )
    } else {
        sha256_of(
            derive_input(salt, password, vstd::arithmetic::power2::pow2(ncp as nat) as int),
        )
    }
}

/// Derives the AES-256 key for the given salt, password bytes and cycle
/// count: SHA-256 over every round's salt, password and counter.
///
/// The cycle count is limited here so the derivation input fits in memory;
/// the format's common counts lie well below the limit.
pub fn derive_key_sha(salt: &Vec<u8>, password: &Vec<u8>, num_cycles_power: u8) -> (r: Result<
    Vec<u8>,
    Error,
>)
    requires
        salt@.len() <= 16,
        num_cycles_power < 0x3F,
    ensures
        r is Ok <==> num_cycles_power <= 21,
        num_cycles_power <= 21 ==> (r matches Ok(key) && key@ == sha256_of(
            derive_input(
                salt@,
                password@,
                vstd::arithmetic::power2::pow2(num_cycles_power as nat) as int,
            ),
        ) && key@.len() == 32),
        r matches Err(e) ==> e is Unsupported,
{
    if num_cycles_power > 21 {
        return Err(
            Error::Unsupported("key derivation cycle count above the supported range".to_string()),
        );
    }
    let rounds: u64 = 1u64 << (num_cycles_power as u64);
    proof {
        vstd::arithmetic::power2::lemma2_to64();
        let e = num_cycles_power as u64;
        assert(1u64 << e == vstd::arithmetic::power2::pow2(e as nat)) by {
            vstd::bits::lemma_u64_shl_is_mul(1u64, e);
        }
    }
    let mut buf: Vec<u8> = Vec::new();
    let mut round: u64 = 0;
    while round < rounds
        invariant
            rounds <= 0x200000,
            round <= rounds,
            salt@.len() <= 16,
            buf@ =~= derive_input(salt@, password@, round as int),
        decreases rounds - round,
    {
        let ghost before = buf@;
        let mut i: usize = 0;
        while i < salt.len()
            invariant
                i <= salt@.len(),
                buf@ =~= before + salt@.subrange(0, i as int),
            decreases salt@.len() - i,
        {
            buf.push(salt[i]);
            proof {
                assert(buf@ =~= before + salt@.subrange(0, i + 1));
            }
            i = i + 1;
        }
        proof {
            assert(buf@ =~= before + salt@);
        }
        let ghost after_salt = buf@;
        let mut j: usize = 0;
        while j < password.len()
            invariant
                j <= password@.len(),
                buf@ =~= after_salt + password@.subrange(0, j as int),
            decreases password@.len() - j,
        {
            buf.push(password[j]);
            proof {
                assert(buf@ =~= after_salt + password@.subrange(0, j + 1));
            }
            j = j + 1;
        }
        proof {
            assert(buf@ =~= after_salt + password@);
        }
        let ghost after_pw = buf@;
        let mut x: u64 = round;
        let mut k: usize = 0;
        while k < 8
            invariant
                k <= 8,
                buf@.len() == after_pw.len() + k,
                forall|t: int|
                    0 <= t < after_pw.len() ==> buf@[t] == after_pw[t],
                forall|t: int|
                    0 <= t < k ==> buf@[after_pw.len() + t] == round_counter(round as int)[t],
                x == spec_shift_down(round as int, k as int),
            decreases 8 - k,
        {
            buf.push((x % 256) as u8);
            x = x / 256;
            k = k + 1;
        }
        proof {
            assert(buf@ =~= after_pw + round_counter(round as int));
            assert(buf@ =~= derive_input(salt@, password@, round + 1));
        }
        round = round + 1;
    }
    Ok(sha256(&buf))
}

/// Parses AES-256 coder properties into the key-derivation inputs: the
/// cycle count, the declared salt, and the IV zero-padded to sixteen
/// bytes. Succeeds exactly when the bytes carry what they declare.
pub fn parse_aes_properties(properties: &Vec<u8>) -> (r: Result<(u8, Vec<u8>, Vec<u8>), Error>)
    ensures
        r is Ok <==> spec_props_wf(properties@),
        r matches Ok(p) ==> p.0 == properties@[0] & 63 && p.0 <= 0x3F && p.1@ == spec_parsed_salt(
            properties@,
        ) && p.1@.len() <= 16 && p.2@ == spec_parsed_iv(properties@) && p.2@.len() == 16,
        r matches Err(e) ==> e is Other,
{
    if properties.len() == 0 {
        return Err(Error::other("AES256 properties too short".to_string()));
    }
    let b0 = properties[0];
    let b1: u8 = if properties.len() >= 2 {
        properties[1]
    } else {
        0
    };
    proof {
        assert(forall|x: u8| ((x >> 6) & 1) <= 1 && (x & 15) <= 15 && ((x >> 7) & 1) <= 1 && (x
            >> 4) <= 15 && (x & 63) <= 63) by (bit_vector);
    }
    let num_cycles_power = b0 & 63;
    let iv_size = (((b0 >> 6) & 1) + (b1 & 15)) as usize;
    let salt_size = (((b0 >> 7) & 1) + (b1 >> 4)) as usize;
    if salt_size + iv_size > usize::MAX - 2 || 2 + salt_size + iv_size > properties.len() {
        return Err(Error::other("Salt size + IV size too long".to_string()));
    }
    let mut salt: Vec<u8> = Vec::new();
    let mut i: usize = 0;
    while i < salt_size
        invariant
            salt@ =~= properties@.subrange(2, 2 + i as int),
            i <= salt_size,
            salt_size == spec_salt_size(properties@),
            salt_size <= 16,
            2 + salt_size + iv_size <= properties@.len(),
        decreases salt_size - i,
    {
        salt.push(properties[2 + i]);
        proof {
            assert(salt@ =~= properties@.subrange(2, 2 + (i + 1)));
        }
        i = i + 1;
    }
    let mut iv: Vec<u8> = Vec::new();
    let mut j: usize = 0;
    while j < 16
        invariant
            iv@.len() == j,
            j <= 16,
            salt_size == spec_salt_size(properties@),
            iv_size == spec_iv_size(properties@),
            salt_size <= 16,
            iv_size <= 16,
            2 + salt_size + iv_size <= properties@.len(),
            forall|t: int| 0 <= t < j ==> iv@[t] == spec_parsed_iv(properties@)[t],
        decreases 16 - j,
    {
        if j < iv_size {
            iv.push(properties[2 + salt_size + j]);
        } else {
            iv.push(0);
        }
        j = j + 1;
    }
    proof {
        assert(iv@ =~= spec_parsed_iv(properties@));
        assert(salt@ =~= spec_parsed_salt(properties@));
    }
    Ok((num_cycles_power, salt, iv))
}

/// Derives the AES key and initialization vector from coder properties
/// and password bytes, as the format specifies: either the salt and
/// password used directly, or SHA-256 iterated over them. Succeeds
/// exactly on well-formed properties, a nonempty password, and a
/// supported cycle count.
pub fn get_aes_key(properties: &Vec<u8>, password: &Vec<u8>) -> (r: Result<
    (Vec<u8>, Vec<u8>),
    Error,
>)
    ensures
        r is Ok <==> spec_props_wf(properties@) && password@.len() > 0 && (properties@[0] & 63
            == 0x3F || properties@[0] & 63 <= 21),
        r matches Ok(p) ==> p.0@ == spec_aes_key(properties@, password@) && p.0@.len() == 32
            && p.1@ == spec_parsed_iv(properties@) && p.1@.len() == 16,
        r matches Err(e) ==> !(e is FileNotFound),
{
    let parsed = parse_aes_properties(properties)?;
    let (num_cycles_power, salt, iv) = parsed;
    if password.len() == 0 {
        return Err(Error::PasswordRequired);
    }
    if num_cycles_power == 0x3F {
        let mut key: Vec<u8> = Vec::new();
        let mut i: usize = 0;
        while i < salt.len()
            invariant
                key@ =~= salt@.subrange(0, i as int),
                i <= salt@.len(),
                salt@.len() <= 16,
            decreases salt@.len() - i,
        {
            key.push(salt[i]);
            proof {
                assert(key@ =~= salt@.subrange(0, i + 1));
            }
            i = i + 1;
        }
        let mut j: usize = 0;
        while key.len() < 32
            invariant
                key@.len() <= 32,
                salt@.len() <= 16,
                j <= password@.len(),
                key@.len() >= salt@.len(),
                key@.subrange(0, salt@.len() as int) =~= salt@,
                j == if key@.len() - salt@.len() <= password@.len() {
                    key@.len() - salt@.len()
                } else {
                    password@.len() as int
                },
                forall|t: int|
                    salt@.len() <= t < key@.len() ==> key@[t] == (if t - salt@.len()
                        < password@.len() {
                        password@[t - salt@.len()]
                    } else {
                        0u8
                    }),
            decreases 32 - key@.len(),
        {
            if j < password.len() {
                key.push(password[j]);
                j = j + 1;
            } else {
                key.push(0);
            }
        }
        proof {
            assert(key@ =~= spec_aes_key(properties@, password@));
        }
        Ok((key, iv))
    } else {
        let key = derive_key_sha(&salt, password, num_cycles_power)?;
        if key.len() != 32 {
            return Err(Error::other("key derivation failed".to_string()));
        }
        Ok((key, iv))
    }
}

/// Decrypts a whole AES-256-CBC stream. The input must be whole blocks;
/// the caller truncates to the declared unpacked size afterwards.
/// Succeeds exactly when the input is whole blocks and the key can be
/// derived, yielding the CBC decryption under the derived key and IV.
pub fn aes_decrypt_buffer(properties: &Vec<u8>, password: &Vec<u8>, data: Vec<u8>) -> (r: Result<
    Vec<u8>,
    Error,
>)
    ensures
        r is Ok <==> data@.len() % 16 == 0 && spec_props_wf(properties@) && password@.len() > 0
            && (properties@[0] & 63 == 0x3F || properties@[0] & 63 <= 21),
        r matches Ok(v) ==> v@ == aes_cbc_decrypt_of(
            spec_aes_key(properties@, password@),
            spec_parsed_iv(properties@),
            data@,
        ) && v@.len() == data@.len(),
        r matches Err(e) ==> !(e is FileNotFound),
{
    if data.len() % 16 != 0 {
        return Err(Error::io("IllegalBlockSize".to_string()));
    }
    let keyiv = get_aes_key(properties, password)?;
    let (key, iv) = keyiv;
    let mut out = data;
    aes_cbc_decrypt(&key, &iv, &mut out);
    Ok(out)
}

/// Encrypts a whole stream with AES-256-CBC under the key derived from
/// the options' own property bytes, zero-padding the final partial
/// block: the ciphertext is the plaintext length rounded up to whole
/// blocks, so end-of-stream padding adds at most one block.
pub fn aes_encrypt_buffer(options: &AesEncoderOptions, data: &Vec<u8>) -> (r: Result<
    Vec<u8>,
    Error,
>)
    requires
        options.iv@.len() == 16,
        options.salt@.len() == 16,
        data@.len() + 16 <= usize::MAX,
    ensures
        r matches Ok(v) ==> v@.len() == ((data@.len() + 15) / 16) * 16,
        r matches Ok(v) ==> v@ == aes_cbc_encrypt_of(
            spec_aes_key(
                crate::encoder_options::spec_aes_properties(*options),
                options.password.spec_bytes(),
            ),
            spec_parsed_iv(crate::encoder_options::spec_aes_properties(*options)),
            data@ + Seq::new((((data@.len() + 15) / 16) * 16 - data@.len()) as nat, |i: int| 0u8),
        ),
        r is Ok <==> options.password.spec_bytes().len() > 0 && (options.num_cycles_power & 63
            == 0x3F || options.num_cycles_power & 63 <= 21),
        r matches Ok(v) ==> aes_cbc_decrypt_of(
            spec_aes_key(
                crate::encoder_options::spec_aes_properties(*options),
                options.password.spec_bytes(),
            ),
            spec_parsed_iv(crate::encoder_options::spec_aes_properties(*options)),
            v@,
        ) == data@ + Seq::new((((data@.len() + 15) / 16) * 16 - data@.len()) as nat, |i: int| 0u8),
{
    let props = options.properties();
    let mut pw: Vec<u8> = Vec::new();
    let pwslice = options.password.as_slice();
    let mut i: usize = 0;
    while i < pwslice.len()
        invariant
            pw@ =~= pwslice@.subrange(0, i as int),
            i <= pwslice@.len(),
            pwslice@ == options.password.spec_bytes(),
        decreases pwslice@.len() - i,
    {
        pw.push(pwslice[i]);
        proof {
            assert(pw@ =~= pwslice@.subrange(0, i + 1));
        }
        i = i + 1;
    }
    proof {
        assert(pw@ =~= options.password.spec_bytes());
        lemma_own_properties_wf(*options);
    }
    let keyiv = get_aes_key(&props, &pw)?;
    let (key, iv) = keyiv;
    let mut out: Vec<u8> = Vec::new();
    let mut j: usize = 0;
    let n = data.len();
    while j < n
        invariant
            out@ =~= data@.subrange(0, j as int),
            j <= n,
            n == data@.len(),
        decreases n - j,
    {
        out.push(data[j]);
        proof {
            assert(out@ =~= data@.subrange(0, j + 1));
        }
        j = j + 1;
    }
    let pad = (16 - n % 16) % 16;
    let mut t: usize = 0;
    while t < pad
        invariant
            out@.len() == n + t,
            out@.subrange(0, n as int) =~= data@,
            forall|q: int| n <= q < out@.len() ==> out@[q] == 0u8,
            t <= pad,
            pad <= 15,
            pad == (16 - n % 16) % 16,
            n + 16 <= usize::MAX,
            n == data@.len(),
        decreases pad - t,
    {
        out.push(0);
        t = t + 1;
    }
    proof {
        lemma_round16(n as int, (n + pad) as int);
        assert(out@ =~= data@ + Seq::new(
            (((data@.len() + 15) / 16) * 16 - data@.len()) as nat,
            |i: int| 0u8,
        ));
    }
    aes_cbc_encrypt(&key, &iv, &mut out);
    Ok(out)
}

/// An AES options record's own property bytes always carry full-size
/// salt and IV fields, and keep its cycle count's low bits.
proof fn lemma_own_properties_wf(o: AesEncoderOptions)
    requires
        o.iv@.len() == 16,
        o.salt@.len() == 16,
    ensures
        spec_props_wf(crate::encoder_options::spec_aes_properties(o)),
        spec_salt_size(crate::encoder_options::spec_aes_properties(o)) == 16,
        spec_iv_size(crate::encoder_options::spec_aes_properties(o)) == 16,
        crate::encoder_options::spec_aes_properties(o)[0] & 63 == o.num_cycles_power & 63,
{
    let props = crate::encoder_options::spec_aes_properties(o);
    assert(props[0] == (o.num_cycles_power & 0x3F) | 0xC0);
    assert(props[1] == 0xFFu8);
    assert(props.len() == 34);
    let b0 = props[0];
    assert(forall|x: u8| ((((x & 0x3F) | 0xC0) >> 7) & 1) == 1 && ((((x & 0x3F) | 0xC0) >> 6) & 1)
        == 1 && (((x & 0x3F) | 0xC0) & 63) == (x & 63)) by (bit_vector);
    assert((0xFFu8 >> 4) == 15 && (0xFFu8 & 15) == 15) by (bit_vector);
}


proof fn lemma_round16(n: int, m: int)
    by (nonlinear_arith)
    requires
        n >= 0,
        m == n + (16 - n % 16) % 16,
    ensures
        m % 16 == 0,
        m == ((n + 15) / 16) * 16,
{
}

} // verus!
