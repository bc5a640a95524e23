use gale_sync::error::AppError;
use gale_sync::profile::{char_is_alphanumeric, text_is_short_code, ProfileId};
use gale_sync::short_uuid::ShortUuid;

fn sample_bytes() -> [u8; 16] {
    [0, 1, 2, 3, 4, 5, 6, 7, 8, 9, 10, 11, 12, 13, 14, 15]
}

#[test]
fn short_uuid_text_is_url_safe_base64() {
    let uuid = ShortUuid(sample_bytes());
    assert_eq!(uuid.to_text(), "AAECAwQFBgcICQoLDA0ODw");
}

#[test]
fn short_uuid_text_uses_the_url_safe_alphabet() {
    let uuid = ShortUuid([0xfb; 16]);
    let text = uuid.to_text();
    assert_eq!(text.len(), 22);
    assert_eq!(text, "-_v7-_v7-_v7-_v7-_v7-w");
    assert_eq!(ShortUuid::try_from(&text), Some(uuid));
}

#[test]
fn short_uuid_reads_its_own_text() {
    let uuid = ShortUuid(sample_bytes());
    assert_eq!(ShortUuid::try_from("AAECAwQFBgcICQoLDA0ODw"), Some(uuid));
}

#[test]
fn short_uuid_rejects_other_lengths() {
    // fifteen bytes
    assert_eq!(ShortUuid::try_from("AAECAwQFBgcICQoLDA0O"), None);
    // seventeen bytes
    assert_eq!(ShortUuid::try_from("AAECAwQFBgcICQoLDA0ODxA"), None);
    assert_eq!(ShortUuid::try_from(""), None);
}

#[test]
fn short_uuid_rejects_padding_and_foreign_characters() {
    assert_eq!(ShortUuid::try_from("AAECAwQFBgcICQoLDA0ODw=="), None);
    assert_eq!(ShortUuid::try_from("AAECAwQFBgcICQoLDA0OD+"), None);
    assert_eq!(ShortUuid::try_from("AAECAwQFBgcICQoLDA0OD:"), None);
}

#[test]
fn short_uuid_from_slice_wants_sixteen_bytes() {
    assert_eq!(ShortUuid::from_slice(&sample_bytes()), Some(ShortUuid(sample_bytes())));
    assert_eq!(ShortUuid::from_slice(&sample_bytes()[..15]), None);
    assert_eq!(ShortUuid::from_slice(&[0u8; 17]), None);
    assert_eq!(ShortUuid::from_slice(&[]), None);
}

#[test]
fn short_uuid_same_compares_bytes() {
    let a = ShortUuid(sample_bytes());
    let mut other = sample_bytes();
    other[15] = 16;
    assert!(a.same(&ShortUuid(sample_bytes())));
    assert!(!a.same(&ShortUuid(other)));
}

#[test]
fn alphanumeric_is_ascii_letters_and_digits() {
    for c in ['a', 'z', 'A', 'Z', '0', '9', 'm', 'Q', '5'] {
        assert!(char_is_alphanumeric(c));
    }
    for c in ['-', '_', ':', ' ', '/', '@', '[', '`', '{', 'é', 'Ω'] {
        assert!(!char_is_alphanumeric(c));
    }
}

#[test]
fn short_code_is_six_letters_or_digits() {
    assert!(text_is_short_code("AB12CD"));
    assert!(text_is_short_code("abcdef"));
    assert!(text_is_short_code("000000"));
    assert!(!text_is_short_code("AB12C"));
    assert!(!text_is_short_code("AB12CDE"));
    assert!(!text_is_short_code("AB12C-"));
    assert!(!text_is_short_code("AB12C\n"));
    assert!(!text_is_short_code("ÅB12CD"));
    assert!(!text_is_short_code(""));
}

#[test]
fn profile_id_reads_a_short_code() {
    assert_eq!(
        ProfileId::try_from("AB12CD".to_string()),
        Ok(ProfileId::Short("AB12CD".to_string()))
    );
}

#[test]
fn profile_id_reads_a_legacy_id() {
    assert_eq!(
        ProfileId::try_from("AAECAwQFBgcICQoLDA0ODw".to_string()),
        Ok(ProfileId::Legacy(ShortUuid(sample_bytes())))
    );
}

#[test]
fn profile_id_rejects_anything_else() {
    let err = ProfileId::try_from("not an id".to_string()).unwrap_err();
    assert_eq!(
        err,
        AppError::BadRequest {
            reason: Some(
                "Invalid profile id: not an id. Must be a base-64 encoded UUID or a 6-character alphanumeric string."
                    .to_string()
            )
        }
    );
    assert!(ProfileId::try_from(String::new()).is_err());
    assert!(ProfileId::try_from("AB12CDE".to_string()).is_err());
}

#[test]
fn profile_id_text_round_trips() {
    let short = ProfileId::Short("XY9ZZZ".to_string());
    assert_eq!(short.as_str(), "XY9ZZZ");
    assert_eq!(ProfileId::try_from(short.as_str()), Ok(short));

    let legacy = ProfileId::Legacy(ShortUuid([0xfb; 16]));
    assert_eq!(legacy.as_str(), "-_v7-_v7-_v7-_v7-_v7-w");
    assert_eq!(ProfileId::try_from(legacy.as_str()), Ok(legacy));
}

#[test]
fn profile_id_same_tells_variants_and_contents_apart() {
    let a = ProfileId::Short("AB12CD".to_string());
    let b = ProfileId::Short("AB12CE".to_string());
    let c = ProfileId::Legacy(ShortUuid(sample_bytes()));
    assert!(a.same(&a.clone()));
    assert!(!a.same(&b));
    assert!(!a.same(&c));
    assert!(!c.same(&a));
    assert!(c.same(&c.clone()));
    assert_eq!(a.clone(), a);
}
