use sevenz_rust2::Archive;
use sevenz_rust2::ArchiveEntry;
use sevenz_rust2::ArchiveReader;
use sevenz_rust2::ArchiveWriter;
use sevenz_rust2::ByteCursor;
use sevenz_rust2::EncoderConfiguration;
use sevenz_rust2::EncoderMethod;
use sevenz_rust2::Password;

fn copy_writer() -> ArchiveWriter {
    let mut w = ArchiveWriter::new();
    w.set_content_methods(vec![EncoderConfiguration::new(EncoderMethod::COPY)]);
    w
}

#[test]
fn single_copy_entry_round_trips_with_expected_size_and_crc() {
    let mut w = copy_writer();
    w.push_archive_entry(ArchiveEntry::new_file("hello.txt"), Some(b"hello\n".to_vec()))
        .unwrap();
    let image = w.finish().unwrap();

    assert!(64 <= image.len() && image.len() <= 160, "image size {}", image.len());

    let archive = Archive::read(&image, &Password::empty()).unwrap();
    assert_eq!(archive.files.len(), 1);
    assert_eq!(archive.files[0].name(), "hello.txt");
    assert_eq!(archive.files[0].size(), 6);
    assert!(archive.files[0].has_crc);
    assert_eq!(archive.files[0].crc, 0x363A3020);

    let reader = ArchiveReader::new(image, Password::empty()).unwrap();
    assert_eq!(reader.read_file("hello.txt").unwrap(), b"hello\n".to_vec());
}

#[test]
fn empty_archive_round_trips() {
    let w = copy_writer();
    let image = w.finish().unwrap();
    let archive = Archive::read(&image, &Password::empty()).unwrap();
    assert_eq!(archive.files.len(), 0);
    assert_eq!(archive.blocks.len(), 0);
}

#[test]
fn zero_byte_file_round_trips() {
    let mut w = copy_writer();
    w.push_archive_entry(ArchiveEntry::new_file("empty.txt"), Some(Vec::new()))
        .unwrap();
    let image = w.finish().unwrap();
    let archive = Archive::read(&image, &Password::empty()).unwrap();
    assert_eq!(archive.files.len(), 1);
    let f = &archive.files[0];
    assert!(!f.has_stream() || f.size() == 0);

    let reader = ArchiveReader::new(image, Password::empty()).unwrap();
    assert_eq!(reader.read_file("empty.txt").unwrap(), Vec::<u8>::new());
}

#[test]
fn directory_entry_round_trips() {
    let mut w = copy_writer();
    w.push_archive_entry(ArchiveEntry::new_directory("folder"), None).unwrap();
    w.push_archive_entry(ArchiveEntry::new_file("folder/a.txt"), Some(b"abc".to_vec()))
        .unwrap();
    let image = w.finish().unwrap();
    let archive = Archive::read(&image, &Password::empty()).unwrap();
    assert_eq!(archive.files.len(), 2);
    assert!(archive.files[0].is_directory());
    assert!(!archive.files[1].is_directory());
}

#[test]
fn multiple_entries_round_trip_in_order() {
    let mut w = copy_writer();
    let bodies: Vec<(&str, Vec<u8>)> = vec![
        ("first.bin", (0..200u8).collect()),
        ("second.bin", vec![7; 1000]),
        ("third.txt", b"some text payload".to_vec()),
    ];
    for (name, body) in &bodies {
        w.push_archive_entry(ArchiveEntry::new_file(name), Some(body.clone()))
            .unwrap();
    }
    let image = w.finish().unwrap();
    let archive = Archive::read(&image, &Password::empty()).unwrap();
    assert_eq!(archive.files.len(), 3);
    for (i, (name, body)) in bodies.iter().enumerate() {
        assert_eq!(archive.files[i].name(), *name);
        assert_eq!(archive.files[i].size(), body.len() as u64);
        assert_eq!(archive.files[i].crc, crc32fast::hash(body) as u64);
    }
    let reader = ArchiveReader::new(image, Password::empty()).unwrap();
    for (name, body) in &bodies {
        assert_eq!(&reader.read_file(name).unwrap(), body);
    }
}

#[test]
fn solid_block_round_trips() {
    let mut w = copy_writer();
    let entries = vec![
        ArchiveEntry::new_file("a.txt"),
        ArchiveEntry::new_file("b.txt"),
    ];
    let readers = vec![b"alpha".to_vec(), b"bravo-bravo".to_vec()];
    w.push_archive_entries(entries, readers).unwrap();
    let image = w.finish().unwrap();
    let archive = Archive::read(&image, &Password::empty()).unwrap();
    assert_eq!(archive.files.len(), 2);
    assert!(archive.is_solid);

    let reader = ArchiveReader::new(image, Password::empty()).unwrap();
    assert_eq!(reader.read_file("a.txt").unwrap(), b"alpha".to_vec());
    assert_eq!(reader.read_file("b.txt").unwrap(), b"bravo-bravo".to_vec());
}

#[test]
fn substream_count_matches_stream_files_after_parse() {
    let mut w = copy_writer();
    w.push_archive_entry(ArchiveEntry::new_directory("d"), None).unwrap();
    w.push_archive_entry(ArchiveEntry::new_file("x"), Some(b"1".to_vec())).unwrap();
    w.push_archive_entry(ArchiveEntry::new_file("y"), Some(b"22".to_vec())).unwrap();
    let image = w.finish().unwrap();
    let archive = Archive::read(&image, &Password::empty()).unwrap();

    let total_substreams: usize = archive
        .blocks
        .iter()
        .map(|b| b.num_unpack_sub_streams)
        .sum();
    let stream_files = archive.files.iter().filter(|f| f.has_stream).count();
    assert_eq!(total_substreams, stream_files);
}

#[test]
fn zeroed_start_header_recovers_via_end_scan() {
    let mut w = copy_writer();
    w.push_archive_entry(ArchiveEntry::new_file("hello.txt"), Some(b"hello\n".to_vec()))
        .unwrap();
    let mut image = w.finish().unwrap();
    for b in image.iter_mut().take(32).skip(8) {
        *b = 0;
    }
    let archive = Archive::read(&image, &Password::empty()).unwrap();
    assert_eq!(archive.files.len(), 1);
    assert_eq!(archive.files[0].name(), "hello.txt");
}

#[test]
fn version_bytes_are_zero_two() {
    let w = copy_writer();
    let image = w.finish().unwrap();
    assert_eq!(&image[0..6], &[b'7', b'z', 0xBC, 0xAF, 0x27, 0x1C]);
    assert_eq!(image[6], 0);
    assert_eq!(image[7], 2);
}

#[test]
fn bad_signature_is_rejected() {
    let w = copy_writer();
    let mut image = w.finish().unwrap();
    image[0] = b'8';
    assert!(matches!(
        Archive::read(&image, &Password::empty()),
        Err(sevenz_rust2::Error::BadSignature(_))
    ));
}

#[test]
fn unsupported_version_is_rejected() {
    let w = copy_writer();
    let mut image = w.finish().unwrap();
    image[6] = 1;
    assert!(matches!(
        Archive::read(&image, &Password::empty()),
        Err(sevenz_rust2::Error::UnsupportedVersion { major: 1, minor: 2 })
    ));
}

#[test]
fn header_crc_mismatch_is_detected() {
    let mut w = copy_writer();
    w.push_archive_entry(ArchiveEntry::new_file("a"), Some(b"abcabc".to_vec()))
        .unwrap();
    let mut image = w.finish().unwrap();
    let last = image.len() - 1;
    image[last] ^= 0xFF;
    assert!(matches!(
        Archive::read(&image, &Password::empty()),
        Err(sevenz_rust2::Error::NextHeaderCrcMismatch)
    ));
}

#[test]
fn entry_checksum_mismatch_is_detected() {
    let mut w = copy_writer();
    w.push_archive_entry(ArchiveEntry::new_file("a"), Some(b"abcdef".to_vec()))
        .unwrap();
    let mut image = w.finish().unwrap();
    image[32] ^= 0xFF;
    let reader = ArchiveReader::new(image, Password::empty()).unwrap();
    assert!(matches!(
        reader.read_file("a"),
        Err(sevenz_rust2::Error::ChecksumVerificationFailed)
    ));
}

#[test]
fn missing_file_is_not_found() {
    let mut w = copy_writer();
    w.push_archive_entry(ArchiveEntry::new_file("a"), Some(b"x".to_vec()))
        .unwrap();
    let image = w.finish().unwrap();
    let reader = ArchiveReader::new(image, Password::empty()).unwrap();
    assert!(matches!(
        reader.read_file("b"),
        Err(sevenz_rust2::Error::FileNotFound)
    ));
}

#[test]
fn non_ascii_names_round_trip() {
    let mut w = copy_writer();
    let name = "r\u{00e9}pertoire/\u{4e03}z-\u{6587}\u{66f8}.txt";
    w.push_archive_entry(ArchiveEntry::new_file(name), Some(b"data".to_vec()))
        .unwrap();
    let image = w.finish().unwrap();
    let archive = Archive::read(&image, &Password::empty()).unwrap();
    assert_eq!(archive.files[0].name(), name);
    let reader = ArchiveReader::new(image, Password::empty()).unwrap();
    assert_eq!(reader.read_file(name).unwrap(), b"data".to_vec());
}

#[test]
fn file_compression_methods_reports_the_chain() {
    let mut w = copy_writer();
    w.push_archive_entry(ArchiveEntry::new_file("a"), Some(b"payload".to_vec()))
        .unwrap();
    let image = w.finish().unwrap();
    let reader = ArchiveReader::new(image, Password::empty()).unwrap();
    let mut methods = Vec::new();
    reader.file_compression_methods("a", &mut methods).unwrap();
    assert_eq!(methods, vec![EncoderMethod::COPY]);
}

#[test]
fn deflate_content_round_trips_through_archive() {
    let mut w = ArchiveWriter::new();
    w.set_content_methods(vec![EncoderConfiguration::new(EncoderMethod::DEFLATE)]);
    let body: Vec<u8> = b"compressible compressible compressible".repeat(50).to_vec();
    w.push_archive_entry(ArchiveEntry::new_file("c.txt"), Some(body.clone()))
        .unwrap();
    let image = w.finish().unwrap();
    let reader = ArchiveReader::new(image, Password::empty()).unwrap();
    assert_eq!(reader.read_file("c.txt").unwrap(), body);
}

use sevenz_rust2::encoder_options::EncoderOptions;
use sevenz_rust2::encoder_options::PPMDOptions;

#[test]
fn ppmd_content_round_trips_through_archive() {
    let mut w = ArchiveWriter::new();
    w.set_content_methods(vec![EncoderConfiguration::new(EncoderMethod::PPMD)
        .with_options(EncoderOptions::PPMD(PPMDOptions::from_order_memory_size(8, 262144)))]);
    let body: Vec<u8> = b"the quick brown fox jumps over the lazy dog ".repeat(40).to_vec();
    w.push_archive_entry(ArchiveEntry::new_file("p.txt"), Some(body.clone()))
        .unwrap();
    let image = w.finish().unwrap();
    let reader = ArchiveReader::new(image, Password::empty()).unwrap();
    assert_eq!(reader.read_file("p.txt").unwrap(), body);
}

#[test]
fn variable_length_integers_round_trip_over_u64_range() {
    let values: Vec<u64> = vec![
        0,
        1,
        0x7F,
        0x80,
        0x3FFF,
        0x4000,
        0x12345678,
        0xFFFFFFFF,
        0x100000000,
        0x123456789A,
        4294967296 * 4 + 17,
        u64::MAX,
    ];
    for v in values {
        let mut buf = Vec::new();
        sevenz_rust2::write_u64(&mut buf, v);
        let mut cursor = ByteCursor::new(buf);
        assert_eq!(cursor.read_u64().unwrap(), v, "round trip failed for {v}");
    }
}

#[test]
fn entry_timestamps_round_trip() {
    let mut w = copy_writer();
    let mut e = ArchiveEntry::new_file("dated.txt");
    e.has_last_modified_date = true;
    e.last_modified_date = sevenz_rust2::NtTime::new(132537600000000000);
    w.push_archive_entry(e, Some(b"dated".to_vec())).unwrap();
    let image = w.finish().unwrap();
    let archive = Archive::read(&image, &Password::empty()).unwrap();
    assert!(archive.files[0].has_last_modified_date);
    assert_eq!(archive.files[0].last_modified_date().raw(), 132537600000000000);
}

/// Asking for an encrypted header without implementing it must not
/// silently write the header in clear: finishing is refused.
#[test]
fn encrypt_header_with_aes_is_refused_not_ignored() {
    let mut writer = ArchiveWriter::new();
    let options = sevenz_rust2::encoder_options::AesEncoderOptions::new(Password::new("secret"));
    writer.set_content_methods(vec![
        EncoderConfiguration::new(EncoderMethod::AES256SHA256)
            .with_options(EncoderOptions::Aes(options)),
    ]);
    writer.set_encrypt_header(true);
    let entry = ArchiveEntry::new_file("a.txt");
    writer
        .push_archive_entry(entry, Some(b"payload".to_vec()))
        .unwrap();
    assert!(writer.finish().is_err());
}

/// Without an AES step the encrypt-header flag changes nothing and the
/// archive finishes normally.
#[test]
fn encrypt_header_without_aes_still_finishes() {
    let mut writer = copy_writer();
    writer.set_encrypt_header(true);
    let entry = ArchiveEntry::new_file("a.txt");
    writer
        .push_archive_entry(entry, Some(b"payload".to_vec()))
        .unwrap();
    let image = writer.finish().unwrap();
    let archive = Archive::read(&image, &Password::empty()).unwrap();
    assert_eq!(archive.files.len(), 1);
}

/// A solid block records each entry with its own data's size, and the
/// entries extract to their own payloads.
#[test]
fn push_archive_entries_records_each_entry_size() {
    let mut writer = copy_writer();
    let entries = vec![
        ArchiveEntry::new_file("one.txt"),
        ArchiveEntry::new_file("two.txt"),
    ];
    let readers = vec![b"first payload".to_vec(), b"2nd".to_vec()];
    writer.push_archive_entries(entries, readers).unwrap();
    let image = writer.finish().unwrap();
    let reader = ArchiveReader::new(image, Password::empty()).unwrap();
    assert_eq!(reader.archive().files[0].size, 13);
    assert_eq!(reader.archive().files[1].size, 3);
    assert_eq!(reader.read_file("one.txt").unwrap(), b"first payload".to_vec());
    assert_eq!(reader.read_file("two.txt").unwrap(), b"2nd".to_vec());
}

/// Mismatched entry and data counts are refused and record nothing.
#[test]
fn push_archive_entries_count_mismatch_is_refused() {
    let mut writer = copy_writer();
    let entries = vec![ArchiveEntry::new_file("one.txt")];
    assert!(writer.push_archive_entries(entries, Vec::new()).is_err());
    let image = writer.finish().unwrap();
    let archive = Archive::read(&image, &Password::empty()).unwrap();
    assert_eq!(archive.files.len(), 0);
}
