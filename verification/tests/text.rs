use product::text::split_once;

#[test]
fn should_split_around_the_first_occurrence_of_a_separator() {
    assert_eq!(
        Some(("shop_id".to_string(), "a#b".to_string())),
        split_once("shop_id#a#b", "#")
    );
    assert_eq!(None, split_once("no separator", "#"));
    assert_eq!(Some((String::new(), "abc".to_string())), split_once("abc", ""));
    assert_eq!("abc".split_once(""), Some(("", "abc")));
}
