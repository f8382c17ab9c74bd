use hexers::hexed;
use hexers::nibbles;
use hexers::ByteSource;
use hexers::HexIterator;
use hexers::VecSource;

fn collect_nibbles(bytes: Vec<u8>) -> Vec<u8> {
    let mut it = nibbles(VecSource::new(bytes));
    let mut out = Vec::new();
    while let Some(n) = it.advance() {
        out.push(n);
    }
    out
}

fn collect_hex(bytes: Vec<u8>) -> Vec<char> {
    let mut it = hexed(VecSource::new(bytes));
    let mut out = Vec::new();
    while let Some(c) = it.advance() {
        out.push(c);
    }
    out
}

#[test]
fn beef_nibbles() {
    assert_eq!(collect_nibbles(vec![0xbe, 0xef]), vec![0xb, 0xe, 0xe, 0xf]);
}

#[test]
fn beef_hex_chars() {
    assert_eq!(collect_hex(vec![0xbe, 0xef]), vec!['b', 'e', 'e', 'f']);
}

#[test]
fn zero_byte() {
    assert_eq!(collect_nibbles(vec![0x00]), vec![0x0, 0x0]);
    assert_eq!(collect_hex(vec![0x00]), vec!['0', '0']);
}

#[test]
fn ff_byte() {
    assert_eq!(collect_nibbles(vec![0xff]), vec![0xf, 0xf]);
    assert_eq!(collect_hex(vec![0xff]), vec!['f', 'f']);
}

#[test]
fn empty_input_is_empty() {
    assert_eq!(collect_nibbles(vec![]), Vec::<u8>::new());
    assert_eq!(collect_hex(vec![]), Vec::<char>::new());
}

#[test]
fn empty_input_exhausted_on_first_query() {
    let mut n = nibbles(VecSource::new(vec![]));
    assert_eq!(n.advance(), None);
    assert_eq!(n.advance(), None);
    let mut h = hexed(VecSource::new(vec![]));
    assert_eq!(h.advance(), None);
    assert_eq!(h.advance(), None);
}

#[test]
fn exhaustion_is_terminal() {
    let mut n = nibbles(VecSource::new(vec![0x5a]));
    assert_eq!(n.advance(), Some(0x5));
    assert_eq!(n.advance(), Some(0xa));
    assert_eq!(n.advance(), None);
    assert_eq!(n.advance(), None);
    let mut h = hexed(VecSource::new(vec![0x5a]));
    assert_eq!(h.advance(), Some('5'));
    assert_eq!(h.advance(), Some('a'));
    assert_eq!(h.advance(), None);
    assert_eq!(h.advance(), None);
}

#[test]
fn concatenated_hex_string() {
    let s: String = collect_hex(vec![0x01, 0x23, 0x45]).into_iter().collect();
    assert_eq!(s, "012345");
}

#[test]
fn extension_methods_match_free_functions() {
    let mut it = VecSource::new(vec![0xbe, 0xef]).nibbles();
    assert_eq!(it.advance(), Some(0xb));
    assert_eq!(it.advance(), Some(0xe));
    assert_eq!(it.advance(), Some(0xe));
    assert_eq!(it.advance(), Some(0xf));
    assert_eq!(it.advance(), None);

    let mut it = VecSource::new(vec![0xbe, 0xef]).hexed();
    assert_eq!(it.advance(), Some('b'));
    assert_eq!(it.advance(), Some('e'));
    assert_eq!(it.advance(), Some('e'));
    assert_eq!(it.advance(), Some('f'));
    assert_eq!(it.advance(), None);
}

#[test]
fn lengths_and_ranges_for_every_single_byte() {
    for b in 0..=255u8 {
        let ns = collect_nibbles(vec![b]);
        assert_eq!(ns.len(), 2);
        assert!(ns.iter().all(|&n| n < 16));
        let cs = collect_hex(vec![b]);
        assert_eq!(cs.len(), 2);
        assert!(cs.iter().all(|&c| "0123456789abcdef".contains(c)));
    }
}

#[test]
fn per_byte_nibbles_and_digits() {
    let digits: Vec<char> = "0123456789abcdef".chars().collect();
    for b in 0..=255u8 {
        let hi = (b >> 4) & 0xf;
        let lo = b & 0xf;
        assert_eq!(collect_nibbles(vec![b]), vec![hi, lo]);
        assert_eq!(collect_hex(vec![b]), vec![digits[hi as usize], digits[lo as usize]]);
    }
}

#[test]
fn length_is_twice_input_length() {
    let input = vec![0x00, 0x11, 0xa7, 0xff, 0x42, 0x9c, 0x38];
    assert_eq!(collect_nibbles(input.clone()).len(), 2 * input.len());
    assert_eq!(collect_hex(input.clone()).len(), 2 * input.len());
}

#[test]
fn round_trip_reconstructs_input() {
    let inputs: Vec<Vec<u8>> = vec![
        vec![],
        vec![0x00],
        vec![0xff],
        vec![0xbe, 0xef],
        vec![0x01, 0x23, 0x45, 0x67, 0x89, 0xab, 0xcd, 0xef],
        (0..=255u8).collect(),
    ];
    for input in inputs {
        let chars = collect_hex(input.clone());
        assert_eq!(chars.len() % 2, 0);
        let mut decoded = Vec::new();
        let mut i = 0;
        while i + 1 < chars.len() {
            let hi = chars[i].to_digit(16).unwrap() as u8;
            let lo = chars[i + 1].to_digit(16).unwrap() as u8;
            decoded.push(hi * 16 + lo);
            i += 2;
        }
        assert_eq!(decoded, input);
    }
}

#[test]
fn hex_chars_are_mapped_nibbles() {
    let digits: Vec<char> = "0123456789abcdef".chars().collect();
    let input = vec![0xde, 0xad, 0x00, 0xff, 0x37];
    let mapped: Vec<char> = collect_nibbles(input.clone())
        .into_iter()
        .map(|n| digits[n as usize])
        .collect();
    assert_eq!(collect_hex(input), mapped);
}

#[test]
fn collect_remaining_matches_advance() {
    let input = vec![0x01, 0x23, 0x45];
    let mut n = nibbles(VecSource::new(input.clone()));
    assert_eq!(n.collect_remaining(), collect_nibbles(input.clone()));
    assert_eq!(n.advance(), None);
    assert_eq!(n.collect_remaining(), Vec::new());

    let mut h = hexed(VecSource::new(input.clone()));
    assert_eq!(h.collect_remaining(), collect_hex(input));
    assert_eq!(h.advance(), None);
    assert_eq!(h.collect_remaining(), Vec::new());
}

#[test]
fn collect_remaining_midway_takes_what_is_left() {
    let mut n = nibbles(VecSource::new(vec![0xbe, 0xef]));
    assert_eq!(n.advance(), Some(0xb));
    assert_eq!(n.collect_remaining(), vec![0xe, 0xe, 0xf]);

    let mut h = hexed(VecSource::new(vec![0xbe, 0xef]));
    assert_eq!(h.advance(), Some('b'));
    assert_eq!(h.collect_remaining(), vec!['e', 'e', 'f']);
}

#[test]
fn nibble_lookup_table() {
    let digits: Vec<char> = "0123456789abcdef".chars().collect();
    for n in 0..16u8 {
        assert_eq!(hexers::hexes::nibble_to_hex_char(n), digits[n as usize]);
    }
}
