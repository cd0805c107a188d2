use users_service::claims::{Claims, TokenError};

fn issue(user_id: i32, exp: i32, secret: &str) -> String {
    Claims { user_id, exp }.to_jwt(secret.to_string()).unwrap()
}

#[test]
fn token_round_trip() {
    for (user_id, exp) in [(1, 2147483647), (0, 0), (-5, 10), (i32::MIN, i32::MAX), (3, -7)] {
        let t = issue(user_id, exp, "K");
        assert_eq!(Claims::from_jwt(t, "K".to_string()), Ok(Claims { user_id, exp }));
    }
}

#[test]
fn token_round_trip_empty_secret() {
    let t = issue(42, 100, "");
    assert_eq!(Claims::from_jwt(t, String::new()), Ok(Claims { user_id: 42, exp: 100 }));
}

#[test]
fn token_has_three_parts() {
    let t = issue(1, 2147483647, "K");
    assert_eq!(t.split('.').count(), 3);
}

#[test]
fn token_is_deterministic() {
    assert_eq!(issue(3, 4, "K"), issue(3, 4, "K"));
    assert_ne!(issue(3, 4, "K"), issue(3, 5, "K"));
}

#[test]
fn token_expiry_is_not_enforced() {
    let t = issue(1, 1, "K");
    assert_eq!(Claims::from_jwt(t, "K".to_string()), Ok(Claims { user_id: 1, exp: 1 }));
}

#[test]
fn token_with_negative_expiry_round_trips() {
    for exp in [-1, i32::MIN] {
        let t = issue(1, exp, "K");
        assert_eq!(Claims::from_jwt(t, "K".to_string()), Ok(Claims { user_id: 1, exp }));
    }
}

#[test]
fn token_with_other_secret_is_refused() {
    let t = issue(1, 2147483647, "K");
    assert_eq!(Claims::from_jwt(t, "K2".to_string()), Err(TokenError::Invalid));
}

#[test]
fn token_with_any_byte_flipped_is_refused() {
    let t = issue(1, 2147483647, "K");
    let bytes = t.as_bytes().to_vec();
    for i in 0..bytes.len() {
        let mut b = bytes.clone();
        b[i] = if b[i] == b'A' { b'B' } else { b'A' };
        let tampered = String::from_utf8(b).unwrap();
        assert_eq!(
            Claims::from_jwt(tampered, "K".to_string()),
            Err(TokenError::Invalid),
            "byte {} flipped",
            i
        );
    }
}

#[test]
fn garbage_token_is_refused() {
    for t in ["", "a.b", "a.b.c", "not a token", "..."] {
        assert_eq!(Claims::from_jwt(t.to_string(), "K".to_string()), Err(TokenError::Invalid));
    }
}

#[test]
fn claims_from_fields() {
    assert_eq!(Claims::from_fields((Some(1), Some(2))), Some(Claims { user_id: 1, exp: 2 }));
    assert_eq!(Claims::from_fields((None, Some(2))), None);
    assert_eq!(Claims::from_fields((Some(1), None)), None);
    assert_eq!(Claims::from_fields((Some(1 << 40), Some(2))), None);
    assert_eq!(Claims::from_fields((Some(1), Some(-(1 << 40)))), None);
    assert_eq!(
        Claims::from_fields((Some(i32::MIN as i64), Some(i32::MAX as i64))),
        Some(Claims { user_id: i32::MIN, exp: i32::MAX })
    );
}
