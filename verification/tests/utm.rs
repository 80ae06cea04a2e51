use product::dynamodb::utm::append_utm_params;

#[test]
fn should_append_utm_params_when_url_has_no_query_params() {
    let actual = append_utm_params("https://example.com/product/123".to_string());
    assert_eq!(
        actual,
        "https://example.com/product/123?utm_source=aura_historia&utm_medium=referral"
    );
}

#[test]
fn should_append_utm_params_when_url_already_has_query_params() {
    let actual = append_utm_params("https://example.com/product/123?color=red".to_string());
    assert_eq!(
        actual,
        "https://example.com/product/123?color=red&utm_source=aura_historia&utm_medium=referral"
    );
}

#[test]
fn should_not_duplicate_utm_params_when_url_already_has_utm() {
    let url = "https://example.com/product/123?utm_source=aura_historia&utm_medium=referral";
    let actual = append_utm_params(url.to_string());
    assert_eq!(actual, url);
}

#[test]
fn should_keep_text_that_is_not_a_url() {
    let actual = append_utm_params("not a url".to_string());
    assert_eq!(actual, "not a url");
}

#[test]
fn should_keep_url_with_other_utm_source() {
    let url = "https://example.com/a?utm_source=newsletter";
    assert_eq!(append_utm_params(url.to_string()), url);
}

#[test]
fn should_leave_a_marked_link_as_it_is_when_marking_it_again() {
    for url in [
        "https://example.com/product/123",
        "https://example.com/product/123?color=red#details",
        "https://example.com/?",
        "not a url",
    ] {
        let once = append_utm_params(url.to_string());
        let twice = append_utm_params(once.clone());
        assert_eq!(once, twice);
    }
}
