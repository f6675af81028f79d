use form_relay::into_counter;
use form_relay::into_counter_index;
use form_relay::into_id;
use form_relay::into_intervals;
use form_relay::into_random;
use form_relay::into_random_index;
use form_relay::next;
use form_relay::year_two_digits;

const ALPHABET32: &str = "0123456789ACDEFGHJKLMNPQRSTUVWXY";
const ALPHABET16: &str = "0123456789ABCDEF";

#[test]
fn test_into_counter() {
    assert_eq!(into_counter(0), "000000");
    assert_eq!(into_counter(50), "000001");
    assert_eq!(into_counter(100), "000002");
    assert_eq!(into_counter(1550), "00000Y");
    assert_eq!(into_counter(1600), "000010");
    assert_eq!(into_counter(31_540_000_000), "KSKGM0");
    assert_eq!(into_counter(31_622_400_000), "KU4S00");
    assert_eq!(into_counter(31_708_800_000), "KVSHH0");
}

#[test]
fn test_into_intervals() {
    assert_eq!(into_intervals(0), 0);
    assert_eq!(into_intervals(49), 0);
    assert_eq!(into_intervals(50), 1);
    assert_eq!(into_intervals(1600), 32);
    assert_eq!(into_intervals(214_748_364_750), u32::MAX);
}

#[test]
fn test_into_counter_index() {
    assert_eq!(into_counter_index(0, 1), 0);
    assert_eq!(into_counter_index(31, 1), 31);
    assert_eq!(into_counter_index(32, 1), 0);
    assert_eq!(into_counter_index(32, 32), 1);
    assert_eq!(into_counter_index(33_554_432, 33_554_432), 1);
}

#[test]
fn test_into_random_index() {
    assert_eq!(into_random_index(0), (0, 0));
    assert_eq!(into_random_index(0x4F), (4, 15));
    assert_eq!(into_random_index(255), (15, 15));
}

#[test]
fn test_random_suffix_totality() {
    for byte in 0..=255u16 {
        let suffix = into_random(byte as u8);
        assert_eq!(suffix.chars().count(), 2);
        for c in suffix.chars() {
            assert!(ALPHABET16.contains(c), "unexpected suffix character {c}");
        }
    }
    assert_eq!(into_random(0), "00");
    assert_eq!(into_random(255), "FF");
}

#[test]
fn test_counter_monotonic_samples() {
    let ticks: [u64; 10] = [0, 1, 31, 32, 1023, 1024, 32_767, 1_048_575, 630_800_000, 1_073_741_823];
    for (i, &a) in ticks.iter().enumerate() {
        for &b in &ticks[i + 1..] {
            assert!(into_counter(a * 50) <= into_counter(b * 50), "order broken at {a} {b}");
        }
    }
}

#[test]
fn test_counter_wraparound() {
    // 32^6 ticks of 50ms each.
    assert_eq!(into_counter(1_073_741_824 * 50), into_counter(0));
    assert_eq!(into_counter(1_073_741_824 * 50), "000000");
}

#[test]
fn test_encoders_idempotent() {
    assert_eq!(into_counter(31_540_000_000), into_counter(31_540_000_000));
    assert_eq!(into_random(0x7C), into_random(0x7C));
}

#[test]
fn test_year_two_digits() {
    assert_eq!(year_two_digits(2026), 26);
    assert_eq!(year_two_digits(2000), 0);
    assert_eq!(year_two_digits(1999), 99);
}

#[test]
fn test_into_id_golden() {
    // A mocked clock at the per-year epoch of a year ending in 26 and a
    // mocked random byte of 0 give one exact, reproducible identifier.
    assert_eq!(into_id("AP", 26, 0, 0), "#AP2600000000");
    assert_eq!(into_id("CM", 26, 1600, 0x4F), "#CM260000104F");
}

#[test]
fn test_next_shape() {
    let id = next("AP");
    let chars: Vec<char> = id.chars().collect();
    assert_eq!(chars.len(), 13);
    assert_eq!(chars[0], '#');
    assert_eq!(chars[1], 'A');
    assert_eq!(chars[2], 'P');
    assert!(chars[3].is_ascii_digit());
    assert!(chars[4].is_ascii_digit());
    for &c in &chars[5..11] {
        assert!(ALPHABET32.contains(c), "unexpected counter character {c}");
    }
    for &c in &chars[11..13] {
        assert!(ALPHABET16.contains(c), "unexpected suffix character {c}");
    }
}

#[test]
fn test_next_embeds_prefix_verbatim() {
    let id = next("ZZZ");
    assert!(id.starts_with("#ZZZ"));
    assert_eq!(id.chars().count(), 14);
}
