use sevenz_rust2::Delta;
use sevenz_rust2::DeltaReader;
use sevenz_rust2::DeltaWriter;

#[test]
fn test_delta_roundtrip() {
    let test_cases: Vec<Vec<u8>> = vec![
        vec![1, 2, 3, 4, 5, 6, 7, 8, 9, 10],
        vec![1, 2, 3, 1, 2, 3, 1, 2, 3],
        vec![42, 13, 255, 0, 128, 64, 32, 99, 200, 150],
        vec![100; 20],
        vec![0, 255, 0, 255, 0, 255, 0, 255],
        (0..300).map(|i| (i % 256) as u8).collect(),
    ];

    let distances = vec![1, 2, 4, 8, 16, 32, 64, 128, 256];

    for distance in distances {
        for (i, original_data) in test_cases.iter().enumerate() {
            let mut writer = DeltaWriter::new(distance);
            writer.write(original_data);
            let encoded_buffer = writer.into_output();

            let mut reader = DeltaReader::new(encoded_buffer, distance);
            let decoded_data = reader.read_to_end();

            assert_eq!(
                original_data, &decoded_data,
                "Roundtrip failed for distance {} with data set {}",
                distance, i
            );
        }
    }
}

#[test]
fn test_delta_streaming_state_carries_over() {
    let mut enc = Delta::new(4);
    let mut part1: Vec<u8> = vec![10, 20, 30, 40, 50];
    let mut part2: Vec<u8> = vec![60, 70, 80];
    enc.encode(&mut part1);
    enc.encode(&mut part2);

    let mut dec = Delta::new(4);
    dec.decode(&mut part1);
    dec.decode(&mut part2);

    assert_eq!(part1, vec![10, 20, 30, 40, 50]);
    assert_eq!(part2, vec![60, 70, 80]);
}

#[test]
fn test_delta_encode_known_values() {
    let mut enc = Delta::new(1);
    let mut buf: Vec<u8> = vec![5, 7, 10, 9];
    enc.encode(&mut buf);
    assert_eq!(buf, vec![5, 2, 3, 255]);
}
