use shuttlings_cch24::gift::{cookie_name, secret, unwrap_gift, wrap_gift, GiftError};

#[test]
fn the_cookie_is_called_gift() {
    assert_eq!(cookie_name(), "gift");
    assert_eq!(secret(), "the_secret_key");
}

#[test]
fn wrapping_signs_the_gift_with_the_secret() {
    let request_body = "{\"cookie is delicious\":\"true\"}";
    let gift = serde_json::Value::String(request_body.to_string());
    let jwt = jsonwebtoken::encode(
        &jsonwebtoken::Header::default(),
        &request_body,
        &jsonwebtoken::EncodingKey::from_secret(b"the_secret_key"),
    )
    .unwrap();
    assert_eq!(wrap_gift(&gift), Ok(jwt));
}

#[test]
fn a_wrapped_gift_can_be_unwrapped() {
    let gift: serde_json::Value =
        serde_json::from_str("{\"cookie is delicious\":\"true\",\"count\":3}").unwrap();
    let token = wrap_gift(&gift).unwrap();
    assert_eq!(token.split('.').count(), 3);
    assert_ne!(token, gift.to_string());
    assert_eq!(unwrap_gift(Some(&token)), Ok(gift));
}

#[test]
fn without_a_cookie_the_gift_is_missing() {
    assert_eq!(unwrap_gift(None), Err(GiftError::Missing));
}

#[test]
fn a_token_that_does_not_stand_up_is_rejected() {
    assert_eq!(unwrap_gift(Some("")), Err(GiftError::Rejected));
    assert_eq!(unwrap_gift(Some("not.a.token")), Err(GiftError::Rejected));
    let gift: serde_json::Value = serde_json::from_str("{\"a\":1}").unwrap();
    let mut token = wrap_gift(&gift).unwrap();
    token.push('x');
    assert_eq!(unwrap_gift(Some(&token)), Err(GiftError::Rejected));
    let forged = jsonwebtoken::encode(
        &jsonwebtoken::Header::default(),
        &gift,
        &jsonwebtoken::EncodingKey::from_secret(b"another_key"),
    )
    .unwrap();
    assert_eq!(unwrap_gift(Some(&forged)), Err(GiftError::Rejected));
}

#[test]
fn a_gift_that_has_expired_is_rejected() {
    let stale: serde_json::Value = serde_json::from_str("{\"exp\":1}").unwrap();
    let token = wrap_gift(&stale).unwrap();
    assert_eq!(unwrap_gift(Some(&token)), Err(GiftError::Rejected));
}

#[test]
fn the_same_gift_always_gets_the_same_token() {
    let gift: serde_json::Value = serde_json::from_str("{\"toy\":\"train\",\"count\":2}").unwrap();
    let other: serde_json::Value = serde_json::from_str("{\"toy\":\"train\",\"count\":3}").unwrap();
    let first = wrap_gift(&gift).unwrap();
    assert_eq!(wrap_gift(&gift), Ok(first.clone()));
    assert_eq!(wrap_gift(&gift.clone()), Ok(first.clone()));
    assert_ne!(wrap_gift(&other), Ok(first));
}
