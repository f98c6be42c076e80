use rustless::new;

#[test]
fn cookie_middlewares_share_the_secret_token() {
    let (decode, _encode) = new(b"top secret");
    assert_eq!(decode.secret_token(), b"top secret");
    let (decode, _encode) = new(&[]);
    assert!(decode.secret_token().is_empty());
}
