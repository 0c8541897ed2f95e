use sevenz_rust2::coders::add_decoder;
use sevenz_rust2::coders::add_encoder;
use sevenz_rust2::encoder_options::AesEncoderOptions;
use sevenz_rust2::encoder_options::DeltaOptions;
use sevenz_rust2::encoder_options::EncoderOptions;
use sevenz_rust2::encoder_options::PPMDOptions;
use sevenz_rust2::encryption::aes_decrypt_buffer;
use sevenz_rust2::encryption::aes_encrypt_buffer;
use sevenz_rust2::encryption::get_aes_key;
use sevenz_rust2::BCJFilter;
use sevenz_rust2::Coder;
use sevenz_rust2::EncoderConfiguration;
use sevenz_rust2::EncoderMethod;
use sevenz_rust2::Password;

fn sample_data() -> Vec<u8> {
    let mut data = Vec::new();
    for i in 0..4096u32 {
        data.push((i % 251) as u8);
        data.push((i / 7 % 256) as u8);
    }
    data
}

fn coder_for(method: EncoderMethod, properties: Vec<u8>) -> Coder {
    let mut c = Coder::new_default();
    c.encoder_method_id = method.id();
    c.properties = properties;
    c
}

fn encode_decode(method: EncoderMethod, options: Option<EncoderOptions>, properties: Vec<u8>) {
    let data = sample_data();
    let mut config = EncoderConfiguration::new(method);
    if let Some(o) = options {
        config = config.with_options(o);
    }
    let encoded = add_encoder(&data, &config).unwrap();
    if method != EncoderMethod::COPY {
        assert_ne!(encoded, data, "the coder must transform its input");
    }
    let coder = coder_for(method, properties);
    let decoded = add_decoder(
        encoded,
        data.len(),
        &coder,
        &Password::empty(),
        usize::MAX / 1024,
        1,
    )
    .unwrap();
    assert_eq!(decoded, data);
}

#[test]
fn copy_round_trip() {
    encode_decode(EncoderMethod::COPY, None, Vec::new());
}

#[test]
fn delta_round_trip_all_distances() {
    for d in [1u32, 2, 3, 16, 255, 256] {
        let data = sample_data();
        let config = EncoderConfiguration::new(EncoderMethod::DELTA_FILTER)
            .with_options(EncoderOptions::Delta(DeltaOptions::from_distance(d)));
        let encoded = add_encoder(&data, &config).unwrap();
        let coder = coder_for(EncoderMethod::DELTA_FILTER, vec![(d - 1) as u8]);
        let decoded = add_decoder(
            encoded,
            data.len(),
            &coder,
            &Password::empty(),
            usize::MAX / 1024,
            1,
        )
        .unwrap();
        assert_eq!(decoded, data);
    }
}

#[test]
fn ppmd_round_trip_through_coder_registry() {
    let opts = PPMDOptions::from_order_memory_size(8, 262144);
    let mut properties = vec![8u8];
    properties.extend_from_slice(&262144u32.to_le_bytes());
    encode_decode(
        EncoderMethod::PPMD,
        Some(EncoderOptions::PPMD(opts)),
        properties,
    );
}

#[test]
fn bzip2_round_trip() {
    encode_decode(EncoderMethod::BZIP2, None, Vec::new());
}

#[test]
fn deflate_round_trip() {
    encode_decode(EncoderMethod::DEFLATE, None, Vec::new());
}

#[test]
fn zstd_round_trip() {
    encode_decode(EncoderMethod::ZSTD, None, Vec::new());
}

#[test]
fn lz4_round_trip() {
    encode_decode(EncoderMethod::LZ4, None, Vec::new());
}

#[test]
fn bcj_arm_filters_invert() {
    let mut data = Vec::new();
    for i in 0..512u32 {
        data.extend_from_slice(&(0xEB000000u32 | (i * 3)).to_le_bytes());
    }
    for kind in 0..3 {
        let (mut enc, mut dec) = match kind {
            0 => (BCJFilter::new_arm(0, true), BCJFilter::new_arm(0, false)),
            1 => (
                BCJFilter::new_arm_thumb(0, true),
                BCJFilter::new_arm_thumb(0, false),
            ),
            _ => (BCJFilter::new_arm64(0, true), BCJFilter::new_arm64(0, false)),
        };
        let mut buf = data.clone();
        enc.code(&mut buf);
        dec.code(&mut buf);
        assert_eq!(buf, data, "filter kind {kind} did not invert");
    }
}

#[test]
fn aes_round_trip_and_padding() {
    let password = Password::new("1234");
    let options = AesEncoderOptions::new(password.clone());
    let properties = options.properties();

    for n in [0usize, 1, 15, 16, 17, 300] {
        let data: Vec<u8> = (0..n).map(|i| (i * 13 % 256) as u8).collect();
        let encrypted = aes_encrypt_buffer(&options, &data).unwrap();
        assert_eq!(encrypted.len(), (n + 15) / 16 * 16);
        if n >= 16 {
            assert_ne!(&encrypted[..n], &data[..], "ciphertext must differ from plaintext");
        }

        let pw: Vec<u8> = password.as_slice().to_vec();
        let decrypted = aes_decrypt_buffer(&properties, &pw, encrypted).unwrap();
        assert_eq!(&decrypted[..n], &data[..]);
    }
}

use sha2::Digest;

#[test]
fn aes_key_derivation_matches_iterated_sha256() {
    let mut properties = vec![8u8 | 0xC0, 0xFF];
    properties.extend_from_slice(&[0u8; 16]);
    properties.extend_from_slice(&[0u8; 16]);

    let password = Password::new("1234");
    let pw: Vec<u8> = password.as_slice().to_vec();
    assert_eq!(pw, vec![b'1', 0, b'2', 0, b'3', 0, b'4', 0]);

    let (key, iv) = get_aes_key(&properties, &pw).unwrap();
    assert_eq!(iv, vec![0u8; 16]);

    let mut hasher = sha2::Sha256::new();
    for round in 0u64..256 {
        hasher.update([0u8; 16]);
        hasher.update(&pw);
        hasher.update(round.to_le_bytes());
    }
    let expected: Vec<u8> = hasher.finalize().to_vec();
    assert_eq!(key, expected);
}

#[test]
fn aes_requires_password() {
    let properties = vec![8u8, 0x00];
    let r = get_aes_key(&properties, &Vec::new());
    assert!(matches!(r, Err(sevenz_rust2::Error::PasswordRequired)));
}

#[test]
fn unknown_method_is_rejected() {
    let data = sample_data();
    let mut c = Coder::new_default();
    c.encoder_method_id = vec![0x7E, 0x7E];
    let r = add_decoder(data, 10, &c, &Password::empty(), usize::MAX / 1024, 1);
    assert!(matches!(
        r,
        Err(sevenz_rust2::Error::UnsupportedCompressionMethod(_))
    ));
}

#[test]
fn encoder_method_registry_round_trips() {
    for m in [
        EncoderMethod::COPY,
        EncoderMethod::LZMA,
        EncoderMethod::LZMA2,
        EncoderMethod::PPMD,
        EncoderMethod::BZIP2,
        EncoderMethod::ZSTD,
        EncoderMethod::DEFLATE,
        EncoderMethod::LZ4,
        EncoderMethod::AES256SHA256,
        EncoderMethod::DELTA_FILTER,
        EncoderMethod::BCJ2_FILTER,
        EncoderMethod::BCJ_ARM64_FILTER,
    ] {
        let id = m.id();
        assert_eq!(EncoderMethod::by_id(&id), Some(m));
    }
    assert_eq!(EncoderMethod::by_id(&[0x99, 0x88]), None);
    assert_eq!(EncoderMethod::PPMD.id(), vec![0x03, 0x04, 0x01]);
    assert_eq!(EncoderMethod::COPY.name(), "COPY");
}

#[test]
fn ppmd_memory_limit_is_enforced() {
    let mut properties = vec![8u8];
    properties.extend_from_slice(&(4096u32 * 1024).to_le_bytes());
    let coder = coder_for(EncoderMethod::PPMD, properties);
    let r = add_decoder(vec![0u8; 16], 16, &coder, &Password::empty(), 1024, 1);
    assert!(matches!(
        r,
        Err(sevenz_rust2::Error::MaxMemLimited { max_kb: 1024, actaul_kb: 4096 })
    ));
}

#[test]
fn test_aes_codec() {
    let password = Password::new("1234");
    let options = AesEncoderOptions::new(password.clone());
    let original: Vec<u8> = (0..8192u32).map(|i| (i * 31 % 256) as u8).collect();

    let encoded = aes_encrypt_buffer(&options, &original).unwrap();

    let pw: Vec<u8> = password.as_slice().to_vec();
    let decoded = aes_decrypt_buffer(&options.properties(), &pw, encoded).unwrap();
    assert_eq!(&decoded[..original.len()], &original[..]);
}

/// The ARM converter's first word: a branch-and-link (top byte 0xEB)
/// whose 24-bit field 0x302010 is scaled to 0xC08040, moved by the
/// running position 8 and scaled back, giving the field 0x302012; a word
/// without the mark stays untouched.
#[test]
fn bcj_arm_known_answer() {
    let mut f = BCJFilter::new_arm(0, true);
    let mut buf = vec![0x10u8, 0x20, 0x30, 0xEB, 1, 2, 3, 4];
    f.code(&mut buf);
    assert_eq!(buf, vec![0x12u8, 0x20, 0x30, 0xEB, 1, 2, 3, 4]);

    let mut g = BCJFilter::new_arm(0, false);
    g.code(&mut buf);
    assert_eq!(buf, vec![0x10u8, 0x20, 0x30, 0xEB, 1, 2, 3, 4]);
}
