use clip_daemon::ringboard::search::{fold, Matcher};
use clip_daemon::stream::Read;

fn chunks(bytes: &[u8], size: usize, interrupted: bool) -> Vec<Read> {
    let mut reads = Vec::new();
    if interrupted {
        reads.push(Read::Interrupted);
    }
    for chunk in bytes.chunks(size) {
        reads.push(Read::Data(chunk.to_vec()));
    }
    reads.push(Read::Data(Vec::new()));
    reads
}

fn whole(bytes: &[u8]) -> Vec<Read> {
    chunks(bytes, 16 * 1024, false)
}

#[test]
fn short_reads_match_whole_string_search_and_reject_invalid_tails() {
    for text in ["", "ababababac", "ÉCOLE İSTANBUL 😀", "€éa"] {
        for needle in ["", "ababac", "école i̇stanbul", "😀", "€é", "absent"] {
            for size in 1..=7 {
                let input = chunks(text.as_bytes(), size, true);
                assert_eq!(
                    Matcher::new(needle).contains(&input).unwrap(),
                    fold(text).contains(&fold(needle))
                );
            }
        }
    }
    for bytes in [&b"match\xff"[..], &b"match\xf0\x9f"[..]] {
        let input = chunks(bytes, 1, true);
        assert!(!Matcher::new("match").contains(&input).unwrap());
    }
    // An I/O failure after a match must still propagate.
    let failure = vec![Read::Data(b"match".to_vec()), Read::Failed];
    assert!(Matcher::new("match").contains(&failure).is_err());
}

#[test]
fn complete_unicode_text_is_searched_across_chunks() {
    let text = format!(
        "{}ÉCOLE\nİstanbul{}late-needle",
        "x".repeat(16 * 1024 - 1),
        "y".repeat(90_000)
    );
    for needle in ["école\ni̇stanbul", "late-needle", "XXÉCOLE"] {
        assert!(
            Matcher::new(needle).contains(&whole(text.as_bytes())).unwrap(),
            "{needle}"
        );
    }
    assert!(!Matcher::new("absent").contains(&whole(text.as_bytes())).unwrap());
    assert!(!Matcher::new("match").contains(&whole(b"match\xff")).unwrap());
    assert!(!Matcher::new("match").contains(&whole(b"match\xc3")).unwrap());
    assert!(Matcher::new("ababac").contains(&whole(b"ababababac")).unwrap());
}
