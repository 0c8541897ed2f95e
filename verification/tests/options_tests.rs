use sevenz_rust2::crc32;
use sevenz_rust2::encoder_options::AesEncoderOptions;
use sevenz_rust2::encoder_options::BrotliOptions;
use sevenz_rust2::encoder_options::Bzip2Options;
use sevenz_rust2::encoder_options::DeflateOptions;
use sevenz_rust2::encoder_options::DeltaOptions;
use sevenz_rust2::encoder_options::LZMA2Options;
use sevenz_rust2::encoder_options::LZMAOptions;
use sevenz_rust2::encoder_options::PPMDOptions;
use sevenz_rust2::encoder_options::ZStandardOptions;
use sevenz_rust2::lz::CountingWriter;
use sevenz_rust2::lz::Hash234;
use sevenz_rust2::method_options::MethodOptions;
use sevenz_rust2::NtTime;
use sevenz_rust2::Password;

#[test]
fn crc32_matches_reference_implementation() {
    for data in [&b""[..], b"hello\n", b"The quick brown fox jumps over the lazy dog"] {
        assert_eq!(crc32(data), crc32fast::hash(data));
    }
    assert_eq!(crc32(b"hello\n"), 0x363A3020);
}

#[test]
fn delta_options_clamp() {
    assert_eq!(DeltaOptions::from_distance(0).0, 1);
    assert_eq!(DeltaOptions::from_distance(5).0, 5);
    assert_eq!(DeltaOptions::from_distance(256).0, 256);
    assert_eq!(DeltaOptions::from_distance(1000).0, 256);
}

#[test]
fn ppmd_options_levels_and_clamps() {
    let o = PPMDOptions::from_level(6);
    assert_eq!(o.order, 8);
    assert_eq!(o.memory_size, 1 << 25);
    let o = PPMDOptions::from_level(99);
    assert_eq!(o.order, 32);
    assert_eq!(o.memory_size, 1 << 28);
    let o = PPMDOptions::from_order_memory_size(1, 100);
    assert_eq!(o.order, 2);
    assert_eq!(o.memory_size, 2048);
    let o = PPMDOptions::from_order_memory_size(99, u32::MAX);
    assert_eq!(o.order, 64);
    assert_eq!(o.memory_size, 4294967259);
}

#[test]
fn level_options_clamp() {
    assert_eq!(Bzip2Options::from_level(7).0, 7);
    assert_eq!(DeflateOptions::from_level(12).0, 9);
    assert_eq!(ZStandardOptions::from_level(25).0, 22);
    let b = BrotliOptions::from_quality_window(99, 99);
    assert_eq!(b.quality, 11);
    assert_eq!(b.window, 24);
    let b = b.with_skippable_frame_size(10);
    assert_eq!(b.skippable_frame_size, 65536);
    let b = b.with_skippable_frame_size(0);
    assert_eq!(b.skippable_frame_size, 0);
}

#[test]
fn lzma_options_presets_and_dict_clamp() {
    let o = LZMAOptions::from_level(6);
    assert_eq!(o.dict_size, 0x800000);
    assert_eq!((o.lc, o.lp, o.pb), (3, 0, 2));
    let mut o2 = LZMA2Options::from_level(9);
    assert_eq!(o2.options.dict_size, 0x4000000);
    o2.set_dictionary_size(1);
    assert_eq!(o2.options.dict_size, 4096);
    o2.set_dictionary_size(u32::MAX);
    assert_eq!(o2.options.dict_size, 4294967280);
    assert_eq!(
        MethodOptions::LZMA2(LZMA2Options::from_level(9)).get_lzma2_dict_size(),
        0x4000000
    );
    assert_eq!(MethodOptions::Num(1234).get_lzma2_dict_size(), 1234);
}

#[test]
fn aes_properties_layout() {
    let options = AesEncoderOptions::new(Password::new("pw"));
    assert_eq!(options.num_cycles_power, 8);
    let props = options.properties();
    assert_eq!(props.len(), 34);
    assert_eq!(props[0], 8 | 0xC0);
    assert_eq!(props[1], 0xFF);
    assert_eq!(&props[2..18], options.salt.as_slice());
    assert_eq!(&props[18..34], options.iv.as_slice());
}

#[test]
fn password_encodes_utf16le() {
    let p = Password::new("ab");
    assert_eq!(p.as_slice(), &[b'a', 0, b'b', 0]);
    assert!(!p.is_empty());
    assert!(Password::empty().is_empty());
    assert_eq!(Password::from_raw(&[1, 2, 3]).as_slice(), &[1, 2, 3]);
}

#[test]
fn nt_time_holds_raw_filetime() {
    let t = NtTime::new(42);
    assert_eq!(t.raw(), 42);
    assert!(NtTime::now().raw() > 0);
}

#[test]
fn counting_writer_counts() {
    let mut w = CountingWriter::new(Vec::new());
    assert_eq!(w.writed_bytes(), 0);
    w.write(b"abc");
    w.write(b"de");
    assert_eq!(w.writed_bytes(), 5);
    assert_eq!(w.counting(), 5);
    assert_eq!(w.into_inner(), b"abcde".to_vec());
}

#[test]
fn hash234_tracks_positions() {
    let mut h = Hash234::new(1 << 16);
    assert!(Hash234::get_mem_usage(1 << 16) > 0);
    let ok = h.calc_hashes(&[1, 2, 3, 4]);
    assert!(ok);
    assert_eq!(h.get_hash2_pos(), 0);
    h.update_tables(7);
    assert_eq!(h.get_hash2_pos(), 7);
    assert_eq!(h.get_hash3_pos(), 7);
    assert_eq!(h.get_hash4_pos(), 7);
    h.normalize(3);
    assert_eq!(h.get_hash2_pos(), 4);
    assert!(!h.calc_hashes(&[1, 2, 3]));
}

use sevenz_rust2::Error;

#[test]
fn error_helpers_build_expected_variants() {
    assert!(matches!(
        Error::other("x".to_string()),
        Error::Other(_)
    ));
    assert!(matches!(
        Error::unsupported("x".to_string()),
        Error::Unsupported(_)
    ));
    assert!(matches!(
        Error::bad_password("e".to_string(), true),
        Error::MaybeBadPassword(_)
    ));
    assert!(matches!(
        Error::bad_password("e".to_string(), false),
        Error::Io(_, _)
    ));
    assert!(matches!(
        Error::io("e".to_string()).maybe_bad_password(true),
        Error::MaybeBadPassword(_)
    ));
    assert!(matches!(
        Error::io("e".to_string()).maybe_bad_password(false),
        Error::Io(_, _)
    ));
    assert!(matches!(
        Error::file_open("e".to_string(), "f".to_string()),
        Error::FileOpen(_, _)
    ));
}
