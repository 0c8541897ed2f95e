use sevenz_rust2::ppmd7::Ppmd7Decoder;
use sevenz_rust2::ppmd7::Ppmd7Encoder;

const SMALL_ORDER: u32 = 2;
const SMALL_MEM_SIZE: u32 = 2048;

const BIG_ORDER: u32 = 64;
const BIG_MEM_SIZE: u32 = 1024 * 1024;

/// A deterministic English-like sample text. It stands in for the large
/// license texts these round trips would otherwise read from disk: this
/// crate ships no test fixture files, so the input is generated, with a
/// similar size and word structure.
fn pseudo_text(seed: u64, words: usize) -> Vec<u8> {
    let vocabulary = [
        "the", "license", "grants", "you", "permission", "to", "use", "copy", "modify", "and",
        "distribute", "this", "work", "provided", "that", "conditions", "are", "met", "in",
        "source", "binary", "forms", "with", "or", "without", "modification", "notice", "of",
        "terms", "shall", "be", "included", "all", "copies", "substantial", "portions",
    ];
    let mut state = seed;
    let mut out = Vec::new();
    let mut column = 0usize;
    for _ in 0..words {
        state = state.wrapping_mul(6364136223846793005).wrapping_add(1442695040888963407);
        let w = vocabulary[(state >> 33) as usize % vocabulary.len()];
        out.extend_from_slice(w.as_bytes());
        column += w.len() + 1;
        if column > 70 {
            out.push(b'\n');
            column = 0;
        } else {
            out.push(b' ');
        }
    }
    out
}

fn roundtrip(order: u32, memory: u32, data: &[u8]) {
    let mut encoder = Ppmd7Encoder::new(order, memory).unwrap();
    encoder.write(&data.to_vec()).unwrap();
    encoder.flush();
    let compressed = encoder.into_output();
    assert!(!compressed.is_empty());

    let mut decoder = Ppmd7Decoder::new(compressed, order, memory).unwrap();
    let decoded = decoder.read(data.len()).unwrap();
    assert_eq!(decoded.as_slice(), data);
}

#[test]
fn ppmd7encoder_encode_decode() {
    let text = pseudo_text(7, 2000);
    roundtrip(8, 262144, &text);
}

#[test]
fn ppmd7_apache2_small_mem_encoder() {
    let text = pseudo_text(2, 2200);
    roundtrip(SMALL_ORDER, SMALL_MEM_SIZE, &text);
}

#[test]
fn ppmd7_apache2_small_mem_decoder() {
    let text = pseudo_text(2, 2200);
    let mut encoder = Ppmd7Encoder::new(SMALL_ORDER, SMALL_MEM_SIZE).unwrap();
    encoder.write(&text).unwrap();
    encoder.flush();
    let compressed = encoder.into_output();

    let mut decoder = Ppmd7Decoder::new(compressed, SMALL_ORDER, SMALL_MEM_SIZE).unwrap();
    let decoded = decoder.read(text.len()).unwrap();
    assert_eq!(decoded, text);
}

#[test]
fn ppmd7_apache2_big_mem_encoder() {
    let text = pseudo_text(2, 2200);
    roundtrip(BIG_ORDER, BIG_MEM_SIZE, &text);
}

#[test]
fn ppmd7_apache2_big_mem_decoder() {
    let text = pseudo_text(2, 2200);
    let mut encoder = Ppmd7Encoder::new(BIG_ORDER, BIG_MEM_SIZE).unwrap();
    encoder.write(&text).unwrap();
    encoder.flush();
    let compressed = encoder.into_output();

    let mut decoder = Ppmd7Decoder::new(compressed, BIG_ORDER, BIG_MEM_SIZE).unwrap();
    let decoded = decoder.read(text.len()).unwrap();
    assert_eq!(decoded, text);
}

#[test]
fn ppmd7_gpl3_small_mem_encoder() {
    let text = pseudo_text(3, 6000);
    roundtrip(SMALL_ORDER, SMALL_MEM_SIZE, &text);
}

#[test]
fn ppmd7_gpl3_small_mem_decoder() {
    let text = pseudo_text(3, 6000);
    let mut encoder = Ppmd7Encoder::new(SMALL_ORDER, SMALL_MEM_SIZE).unwrap();
    encoder.write(&text).unwrap();
    encoder.flush();
    let compressed = encoder.into_output();

    let mut decoder = Ppmd7Decoder::new(compressed, SMALL_ORDER, SMALL_MEM_SIZE).unwrap();
    let decoded = decoder.read(text.len()).unwrap();
    assert_eq!(decoded, text);
}

#[test]
fn ppmd7_gpl3_big_mem_encoder() {
    let text = pseudo_text(3, 6000);
    roundtrip(BIG_ORDER, BIG_MEM_SIZE, &text);
}

#[test]
fn ppmd7_gpl3_big_mem_decoder() {
    let text = pseudo_text(3, 6000);
    let mut encoder = Ppmd7Encoder::new(BIG_ORDER, BIG_MEM_SIZE).unwrap();
    encoder.write(&text).unwrap();
    encoder.flush();
    let compressed = encoder.into_output();

    let mut decoder = Ppmd7Decoder::new(compressed, BIG_ORDER, BIG_MEM_SIZE).unwrap();
    let decoded = decoder.read(text.len()).unwrap();
    assert_eq!(decoded, text);
}

#[test]
fn ppmd7_binary_pattern_roundtrip() {
    let mut data = Vec::new();
    for _ in 0..1024 {
        for b in 0..=255u8 {
            data.push(b);
        }
    }
    roundtrip(8, 262144, &data);
}

#[test]
fn ppmd7_rejects_bad_parameters() {
    assert!(Ppmd7Encoder::new(1, 262144).is_err());
    assert!(Ppmd7Encoder::new(65, 262144).is_err());
    assert!(Ppmd7Encoder::new(8, 2047).is_err());
    assert!(Ppmd7Decoder::new(vec![0, 0, 0, 0, 0], 1, 262144).is_err());
    assert!(Ppmd7Decoder::new(vec![1, 0, 0, 0, 0], 8, 262144).is_err());
    assert!(Ppmd7Decoder::new(vec![0, 0], 8, 262144).is_err());
}

/// The first symbol is coded from the initial 256-symbol context with
/// every frequency 1 and a total of 257, so its encoding is fixed by the
/// PPMd7 range coder alone: the range becomes 0xFFFFFFFF / 257 =
/// 0xFF00FF, the low word becomes 97 * 0xFF00FF = 0x609F609F, one
/// normalization emits the initial zero cache byte, and the five-byte
/// flush drains the low word.
#[test]
fn ppmd7_known_answer_single_symbol_encoding() {
    let mut encoder = Ppmd7Encoder::new(6, 16 << 20).unwrap();
    encoder.write(&vec![97u8]).unwrap();
    encoder.flush();
    let compressed = encoder.into_output();
    assert_eq!(compressed, vec![0x00, 0x60, 0x9F, 0x60, 0x9F, 0x00]);
}

/// The same fixed bytes decode back to the symbol they encode, whatever
/// valid order and memory size the model uses: the first symbol sees the
/// initial uniform context.
#[test]
fn ppmd7_known_answer_single_symbol_decoding() {
    let compressed = vec![0x00u8, 0x60, 0x9F, 0x60, 0x9F, 0x00];
    let mut decoder = Ppmd7Decoder::new(compressed, 6, 16 << 20).unwrap();
    let out = decoder.read(1).unwrap();
    assert_eq!(out, vec![97u8]);

    let compressed = vec![0x00u8, 0x60, 0x9F, 0x60, 0x9F, 0x00];
    let mut decoder = Ppmd7Decoder::new(compressed, 2, 2048 << 10).unwrap();
    let out = decoder.read(1).unwrap();
    assert_eq!(out, vec![97u8]);
}

/// The initial-context coding is uniform in the symbol: byte 0 multiplies
/// the range by zero into the low word, so the stream is the zero cache
/// byte and the flushed zero low word.
#[test]
fn ppmd7_known_answer_symbol_zero() {
    let mut encoder = Ppmd7Encoder::new(6, 16 << 20).unwrap();
    encoder.write(&vec![0u8]).unwrap();
    encoder.flush();
    let compressed = encoder.into_output();
    assert_eq!(compressed, vec![0x00, 0x00, 0x00, 0x00, 0x00, 0x00]);
}
