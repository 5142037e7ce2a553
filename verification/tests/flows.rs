use ory_selfservice_rust::url_rewrite::rewrite_kratos_redirect;

#[test]
fn test_rewrite_kratos_redirect() {
    let kratos_url = "http://kratos-public:4433";
    let public_base = "http://localhost:3000";

    // Test replacement of kratos host with local host
    let input = "http://kratos-public:4433/self-service/login/browser?flow=123";
    let expected = "http://localhost:3000/self-service/login/browser?flow=123";
    let actual = input.replace(kratos_url, public_base);
    assert_eq!(actual, expected);
}

#[test]
fn rewrite_kratos_redirect_maps_browser_login_to_local_route() {
    let actual = rewrite_kratos_redirect(
        "http://kratos-public:4433/self-service/login/browser?flow=123",
        "http://kratos-public:4433",
        "http://localhost:3000",
    );
    assert_eq!(actual, "http://localhost:3000/login?flow=123");
}

#[test]
fn rewrite_kratos_redirect_ignores_trailing_slashes() {
    let actual = rewrite_kratos_redirect(
        "http://kratos-public:4433/self-service/settings?flow=9",
        "http://kratos-public:4433///",
        "http://localhost:3000/",
    );
    assert_eq!(actual, "http://localhost:3000/settings?flow=9");
}

#[test]
fn rewrite_kratos_redirect_leaves_foreign_location() {
    let actual = rewrite_kratos_redirect("https://client.example/cb?code=1", "http://kratos:4433", "http://app");
    assert_eq!(actual, "https://client.example/cb?code=1");
}

#[test]
fn rewrite_kratos_redirect_replaces_every_occurrence() {
    let actual = rewrite_kratos_redirect(
        "http://k/self-service/login/browser?return_to=http://k/x",
        "http://k",
        "http://app",
    );
    assert_eq!(actual, "http://app/login?return_to=http://app/x");
}

#[test]
fn rewrite_kratos_redirect_with_empty_kratos_base() {
    // An empty Kratos base matches every location; replacing the empty
    // pattern puts the public base between every character.
    let actual = rewrite_kratos_redirect("ab", "/", "X");
    assert_eq!(actual, "ab".replace("", "X"));
    assert_eq!(actual, "XaXbX");
}

#[test]
fn rewrite_kratos_redirect_keeps_query_of_browser_flow() {
    let actual = rewrite_kratos_redirect(
        "http://kratos-public:4433/self-service/registration/browser?flow=abc&return_to=home",
        "http://kratos-public:4433",
        "http://localhost:3000",
    );
    assert_eq!(actual, "http://localhost:3000/registration?flow=abc&return_to=home");
}
