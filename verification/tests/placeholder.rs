use proto_error::not_openssl;
use proto_error::SslErrorStack;

#[test]
fn placeholder_describes_itself_by_the_fixed_message() {
    assert_eq!(SslErrorStack.description(), "openssl feature not enabled");
}

#[test]
fn placeholder_renders_the_fixed_message() {
    assert_eq!(SslErrorStack.render(), "openssl feature not enabled");
    assert_eq!(SslErrorStack.render(), SslErrorStack.description());
}

#[test]
fn placeholder_is_the_same_however_it_is_made() {
    let direct = SslErrorStack;
    let by_path = not_openssl::SslErrorStack;
    let copied = direct;
    let cloned = direct.clone();
    assert_eq!(direct, by_path);
    assert_eq!(direct, copied);
    assert_eq!(direct, cloned);
    for made in [direct, by_path, copied, cloned] {
        assert_eq!(made.description(), "openssl feature not enabled");
        assert_eq!(made.render(), "openssl feature not enabled");
    }
}

#[test]
fn placeholder_prints_for_diagnostics() {
    assert_eq!(format!("{:?}", SslErrorStack), "SslErrorStack");
}
