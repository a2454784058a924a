use libluminate::access::{
    copy_secret, create_principal_attestation_request, create_token_request, expiry_unix_ms,
    luminate_attestation_authority, luminate_attestation_credential_id,
    luminate_attestation_expires_at_unix_ms, luminate_attestation_group_at,
    luminate_attestation_group_count, luminate_attestation_list_at, luminate_attestation_list_count,
    luminate_attestation_name, luminate_attestation_subject, luminate_created_attestation_authority,
    luminate_created_attestation_credential_id, luminate_created_attestation_expires_at_unix_ms,
    luminate_created_attestation_group_at, luminate_created_attestation_group_count,
    luminate_created_attestation_name, luminate_created_attestation_secret,
    luminate_created_attestation_subject, luminate_created_token_authority,
    luminate_created_token_expires_at_unix_ms, luminate_created_token_id,
    luminate_created_token_secret, luminate_created_token_subject, luminate_token_authority,
    luminate_token_expires_at_unix_ms, luminate_token_id, luminate_token_list_at,
    luminate_token_list_count, luminate_token_revoked, luminate_token_subject, principal,
    list_request, luminate_attestation_list_free, luminate_created_attestation_free,
    luminate_created_token_free, luminate_token_list_free, revoke_request, rotate_token_request, AttestationMetadata, Credential,
    LuminateAttestationList, LuminateCreatedAttestation, LuminateCreatedToken, LuminateTokenList,
    PrincipalId, TokenMetadata,
};
use libluminate::status::LuminateStatus;
use libluminate::time::{from_unix_millis, optional_expiry, system_time_unix_ms, UnixTime};

fn at_millis(ms: u64) -> UnixTime {
    from_unix_millis(ms)
}

#[test]
fn token_views_cover_display_once_metadata_expiry_and_boundaries() {
    let token = LuminateCreatedToken {
        metadata: TokenMetadata {
            id: "desk".to_owned(),
            subject: principal(),
            expires_at: Some(at_millis(1_234)),
            revoked: false,
        },
        secret: Credential::new("display-once").expect("credential"),
    };
    let mut copied = [0_u8; 4];
    assert_eq!(luminate_created_token_secret(Some(&token), &mut copied), 12);
    assert_eq!(&copied, b"disp");
    assert_eq!(luminate_created_token_secret(Some(&token), &mut []), 12);
    assert_eq!(luminate_created_token_id(Some(&token)), Some("desk"));
    assert_eq!(luminate_created_token_authority(Some(&token)), Some("local"));
    assert_eq!(luminate_created_token_subject(Some(&token)), Some("alice"));
    let mut expires_at = 0;
    assert!(luminate_created_token_expires_at_unix_ms(Some(&token), Some(&mut expires_at)));
    assert_eq!(expires_at, 1_234);

    let tokens = LuminateTokenList(vec![
        token.metadata.clone(),
        TokenMetadata {
            id: "revoked".to_owned(),
            subject: principal(),
            expires_at: None,
            revoked: true,
        },
    ]);
    assert_eq!(luminate_token_list_count(Some(&tokens)), 2);
    let revoked = luminate_token_list_at(Some(&tokens), 1);
    assert!(revoked.is_some());
    assert_eq!(luminate_token_id(revoked), Some("revoked"));
    assert_eq!(luminate_token_authority(revoked), Some("local"));
    assert_eq!(luminate_token_subject(revoked), Some("alice"));
    assert!(luminate_token_revoked(revoked));
    assert!(!luminate_token_expires_at_unix_ms(revoked, Some(&mut expires_at)));
    assert!(luminate_token_list_at(Some(&tokens), 9).is_none());
    assert_eq!(luminate_token_list_count(None), 0);
}

#[test]
fn attestation_views_cover_groups_expiry_and_null_sentinels() {
    let attestation = LuminateCreatedAttestation {
        metadata: AttestationMetadata {
            name: "browser".to_owned(),
            subject: principal(),
            verified_groups: vec!["operators".to_owned(), "staff".to_owned()],
            credential_id: "attestation:browser".to_owned(),
            expires_at: Some(at_millis(5_000)),
        },
        secret: Credential::new("secret").expect("credential"),
    };
    assert_eq!(luminate_created_attestation_group_count(Some(&attestation)), 2);
    assert_eq!(luminate_created_attestation_group_at(Some(&attestation), 0), Some("operators"));
    assert!(luminate_created_attestation_group_at(Some(&attestation), 9).is_none());
    assert_eq!(
        luminate_created_attestation_credential_id(Some(&attestation)),
        Some("attestation:browser")
    );
    assert_eq!(luminate_created_attestation_name(Some(&attestation)), Some("browser"));
    assert_eq!(luminate_created_attestation_authority(Some(&attestation)), Some("local"));
    assert_eq!(luminate_created_attestation_subject(Some(&attestation)), Some("alice"));
    let mut expires_at = 0;
    assert!(luminate_created_attestation_expires_at_unix_ms(Some(&attestation), Some(&mut expires_at)));
    assert_eq!(expires_at, 5_000);

    let records = LuminateAttestationList(vec![attestation.metadata.clone()]);
    assert_eq!(luminate_attestation_list_count(Some(&records)), 1);
    let record = luminate_attestation_list_at(Some(&records), 0);
    assert!(record.is_some());
    assert_eq!(luminate_attestation_name(record), Some("browser"));
    assert_eq!(luminate_attestation_authority(record), Some("local"));
    assert_eq!(luminate_attestation_subject(record), Some("alice"));
    assert_eq!(luminate_attestation_credential_id(record), Some("attestation:browser"));
    assert_eq!(luminate_attestation_group_count(record), 2);
    assert_eq!(luminate_attestation_group_at(record, 1), Some("staff"));
    assert_eq!(luminate_created_attestation_secret(None, &mut []), 0);
    assert!(!luminate_attestation_expires_at_unix_ms(record, None));
    assert_eq!(luminate_attestation_list_count(None), 0);
}

#[test]
fn optional_expiry_distinguishes_absent_valid_and_out_of_range_values() {
    assert_eq!(optional_expiry(false, u64::MAX).expect("absent expiry"), None);
    assert_eq!(
        optional_expiry(true, 1_000).expect("valid expiry"),
        Some(UnixTime { secs: 1, nanos: 0 })
    );
}

#[test]
fn expiry_round_trips_through_unix_milliseconds() {
    for ms in [0_u64, 1, 999, 1_000, 1_234, 86_400_000, u64::MAX] {
        let t = optional_expiry(true, ms).expect("expiry").expect("present");
        assert_eq!(system_time_unix_ms(t), Some(ms));
    }
    assert_eq!(optional_expiry(true, 1_234).unwrap(), Some(UnixTime { secs: 1, nanos: 234_000_000 }));
    assert_eq!(system_time_unix_ms(UnixTime { secs: -1, nanos: 0 }), None);
    assert_eq!(system_time_unix_ms(UnixTime { secs: i64::MAX, nanos: 0 }), None);
}

#[test]
fn token_expiry_is_absent_without_an_instant() {
    let token = TokenMetadata {
        id: "t".to_owned(),
        subject: principal(),
        expires_at: None,
        revoked: false,
    };
    assert_eq!(expiry_unix_ms(&token), None);
    let timed = TokenMetadata { expires_at: Some(at_millis(42)), ..token };
    assert_eq!(expiry_unix_ms(&timed), Some(42));
}

#[test]
fn secret_copy_reports_full_length_and_fills_a_prefix() {
    let mut buffer = [7_u8; 8];
    assert_eq!(copy_secret(b"abc", &mut buffer), 3);
    assert_eq!(&buffer, b"abc\x07\x07\x07\x07\x07");
    let mut small = [0_u8; 2];
    assert_eq!(copy_secret(b"abcdef", &mut small), 6);
    assert_eq!(&small, b"ab");
}

#[test]
fn principals_reject_empty_parts() {
    assert_eq!(PrincipalId::new("", "alice").err(), Some(LuminateStatus::InvalidArgument));
    assert_eq!(PrincipalId::new("local", "").err(), Some(LuminateStatus::InvalidArgument));
    let p = PrincipalId::new("local", "alice").expect("principal");
    assert_eq!(p.authority(), "local");
    assert_eq!(p.subject(), "alice");
    assert!(Credential::new("").is_err());
}

#[test]
fn administration_requests_validate_in_documented_order() {
    let invalid: &[u8] = &[0xff];
    assert_eq!(
        create_token_request(false, true, Some(b"desk"), Some(b"local"), Some(b"alice"), false, 0).err(),
        Some(LuminateStatus::NullPointer)
    );
    assert_eq!(
        create_token_request(true, false, Some(b"desk"), Some(b"local"), Some(b"alice"), false, 0).err(),
        Some(LuminateStatus::NullPointer)
    );
    assert_eq!(
        create_token_request(true, true, Some(invalid), Some(b"local"), Some(b"alice"), false, 0).err(),
        Some(LuminateStatus::InvalidUtf8)
    );
    assert_eq!(
        create_token_request(true, true, Some(b"desk"), None, Some(b"alice"), false, 0).err(),
        Some(LuminateStatus::NullPointer)
    );
    assert_eq!(
        create_token_request(true, true, Some(b"desk"), Some(b""), Some(b"alice"), false, 0).err(),
        Some(LuminateStatus::InvalidArgument)
    );
    let request = create_token_request(true, true, Some(b"desk"), Some(b"local"), Some(b"alice"), true, 1_500)
        .expect("valid request");
    assert_eq!(request.id, "desk");
    assert_eq!(request.subject.subject(), "alice");
    assert_eq!(request.expires_at, Some(UnixTime { secs: 1, nanos: 500_000_000 }));

    let groups: [Option<&[u8]>; 2] = [Some(b"operators"), None];
    assert_eq!(
        create_principal_attestation_request(
            true, true, Some(b"browser"), Some(b"local"), Some(b"alice"), Some(&groups), 2, false, 0
        )
        .err(),
        Some(LuminateStatus::NullPointer)
    );
    assert_eq!(
        create_principal_attestation_request(true, true, Some(b"browser"), Some(b"local"), Some(b"alice"), None, 1, false, 0)
            .err(),
        Some(LuminateStatus::NullPointer)
    );
    let ok = create_principal_attestation_request(
        true, true, Some(b"browser"), Some(b"local"), Some(b"alice"), None, 0, false, 0,
    )
    .expect("no groups");
    assert!(ok.verified_groups.is_empty());

    assert_eq!(rotate_token_request(true, true, None, false, 0).err(), Some(LuminateStatus::NullPointer));
    let (id, expiry) = rotate_token_request(true, true, Some(b"desk"), true, 2_000).expect("rotation");
    assert_eq!(id, "desk");
    assert_eq!(expiry, Some(UnixTime { secs: 2, nanos: 0 }));
    assert_eq!(revoke_request(false, Some(b"desk")).err(), Some(LuminateStatus::NullPointer));
    assert_eq!(revoke_request(true, Some(b"desk")).expect("revoke"), "desk");
}

#[test]
fn administration_operations_reject_invalid_public_inputs() {
    let valid: &[u8] = b"valid";
    let empty: &[u8] = b"";
    let invalid_utf8: &[u8] = &[0xff];
    assert_eq!(
        create_principal_attestation_request(true, true, None, Some(valid), Some(valid), None, 0, false, 0).err(),
        Some(LuminateStatus::NullPointer)
    );
    assert_eq!(
        create_principal_attestation_request(true, true, Some(invalid_utf8), Some(valid), Some(valid), None, 0, false, 0).err(),
        Some(LuminateStatus::InvalidUtf8)
    );
    assert_eq!(
        create_principal_attestation_request(true, true, Some(valid), Some(empty), Some(valid), None, 0, false, 0).err(),
        Some(LuminateStatus::InvalidArgument)
    );
    assert_eq!(
        create_principal_attestation_request(true, true, Some(valid), Some(valid), Some(valid), None, 1, false, 0).err(),
        Some(LuminateStatus::NullPointer)
    );
    assert_eq!(
        create_token_request(true, false, Some(valid), Some(valid), Some(valid), false, 0).err(),
        Some(LuminateStatus::NullPointer)
    );
    assert_eq!(
        create_token_request(true, true, Some(invalid_utf8), Some(valid), Some(valid), false, 0).err(),
        Some(LuminateStatus::InvalidUtf8)
    );
    assert_eq!(
        create_token_request(true, true, Some(valid), Some(empty), Some(valid), false, 0).err(),
        Some(LuminateStatus::InvalidArgument)
    );
    // Listing tokens, then listing attestations: both check the same pair.
    assert_eq!(list_request(true, false), Err(LuminateStatus::NullPointer));
    assert_eq!(list_request(true, false), Err(LuminateStatus::NullPointer));
}

#[test]
fn erasing_a_credential_zeroes_every_byte() {
    let mut credential = Credential::new("display-once").expect("credential");
    assert_eq!(credential.expose(), b"display-once");
    credential.erase();
    assert_eq!(credential.expose(), &[0_u8; 12]);
}

#[test]
fn owned_access_values_are_released_and_null_is_a_no_op() {
    let token = LuminateCreatedToken {
        metadata: TokenMetadata { id: "t".to_owned(), subject: principal(), expires_at: None, revoked: false },
        secret: Credential::new("secret").expect("credential"),
    };
    luminate_created_token_free(Some(Box::new(token)));
    luminate_created_token_free(None);
    luminate_created_attestation_free(None);
    luminate_token_list_free(Some(Box::new(LuminateTokenList(Vec::new()))));
    luminate_token_list_free(None);
    luminate_attestation_list_free(Some(Box::new(LuminateAttestationList(Vec::new()))));
    luminate_attestation_list_free(None);
}
