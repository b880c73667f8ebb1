use early_boot::efi::EfiStatus;

#[test]
fn status_from_success_word() {
    assert_eq!(EfiStatus::from(0u64), EfiStatus::EfiSuccess);
    assert_eq!(EfiStatus::EfiSuccess.code(), 0);
}

#[test]
fn status_from_error_words() {
    assert_eq!(EfiStatus::from(0x8000_0000_0000_0001u64), EfiStatus::EfiLoadError);
    assert_eq!(EfiStatus::from(0x8000_0000_0000_0005u64), EfiStatus::EfiBufferTooSmall);
    assert_eq!(EfiStatus::from(0x8000_0000_0000_001cu64), EfiStatus::EfiEndOfMedia);
    assert_eq!(EfiStatus::from(0x8000_0000_0000_001fu64), EfiStatus::EfiEndOfFile);
    assert_eq!(EfiStatus::from(0x8000_0000_0000_0023u64), EfiStatus::EfiHttpError);
    assert_eq!(EfiStatus::from(0x8000_0000_0000_0064u64), EfiStatus::EfiNetworkUnreachable);
    assert_eq!(EfiStatus::from(0x8000_0000_0000_006au64), EfiStatus::EfiConnectionRefused);
}

#[test]
fn status_from_warning_words() {
    assert_eq!(EfiStatus::from(1u64), EfiStatus::EfiWarnUnknownGlyph);
    assert_eq!(EfiStatus::from(4u64), EfiStatus::EfiWarnBufferTooSmall);
    assert_eq!(EfiStatus::from(6u64), EfiStatus::EfiWarnFileSystem);
}

#[test]
fn status_from_unknown_words() {
    let unknown: [u64; 7] = [
        7,
        0x8000_0000_0000_0000,
        0x8000_0000_0000_001d,
        0x8000_0000_0000_0022,
        0x8000_0000_0000_006b,
        0x0000_0000_8000_0005,
        u64::MAX,
    ];
    for &word in unknown.iter() {
        assert_eq!(EfiStatus::from(word), EfiStatus::InvalidEfiStatusCode(word));
        assert_eq!(EfiStatus::from(word).code(), word);
    }
}

#[test]
fn status_codes_decode_to_themselves() {
    let mut known = 0;
    for low in 0..=0x80u64 {
        for &word in [low, 0x8000_0000_0000_0000 | low].iter() {
            let status = EfiStatus::from(word);
            assert_eq!(status.code(), word);
            assert_eq!(EfiStatus::from(status.code()), status);
            if !matches!(status, EfiStatus::InvalidEfiStatusCode(_)) {
                known += 1;
            }
        }
    }
    assert_eq!(known, 46);
}
