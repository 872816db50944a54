use module_tour::greeting::greeting;
use module_tour::inline::inline_fn;
use module_tour::name_resolution::public_inner;
use module_tour::name_resolution::test_private_inner;
use module_tour::platform::Family;
use module_tour::use_examples::{test_pub_use, test_use, test_use_nested, test_use_wildcard};
use module_tour::use_platform;

#[test]
fn ok() {
    assert_eq!(1 + 1, 2);
}

#[test]
fn use_platform_names_each_family() {
    assert_eq!(use_platform(Family::Unix), "unix");
    assert_eq!(use_platform(Family::Windows), "windows");
}

#[test]
fn use_platform_agrees_with_the_platform_modules() {
    assert_eq!(use_platform(Family::Unix), module_tour::unix::FAMILY);
    assert_eq!(use_platform(Family::Windows), module_tour::windows::FAMILY);
}

#[test]
fn family_names_differ() {
    assert_ne!(use_platform(Family::Unix), use_platform(Family::Windows));
    assert_ne!(Family::Unix, Family::Windows);
}

#[test]
fn greeting_on_unix() {
    assert_eq!(
        greeting(use_platform(Family::Unix)),
        "Hello, world! Running on platform family 'unix'"
    );
}

#[test]
fn greeting_on_windows() {
    assert_eq!(
        greeting(use_platform(Family::Windows)),
        "Hello, world! Running on platform family 'windows'"
    );
}

#[test]
fn greeting_for_an_empty_name() {
    assert_eq!(greeting(""), "Hello, world! Running on platform family ''");
}

#[test]
fn greeting_keeps_the_name_as_it_is() {
    assert_eq!(
        greeting("it's {} \u{e9}"),
        "Hello, world! Running on platform family 'it's {} \u{e9}'"
    );
}

#[test]
fn greeting_holds_world_and_the_name() {
    for family in [Family::Unix, Family::Windows] {
        let name = use_platform(family);
        let line = greeting(name);
        assert_eq!(line.find("world"), Some(7));
        assert_eq!(line.find(&format!("'{}'", name)), Some(41));
        assert_eq!(&line[42..42 + name.len()], name);
        assert_eq!(line.len(), 43 + name.len());
    }
}

#[test]
fn greeting_is_one_line() {
    assert!(!greeting(use_platform(Family::Unix)).contains('\n'));
    assert!(!greeting(use_platform(Family::Windows)).contains('\n'));
}

#[test]
fn exported_functions_return() {
    inline_fn();
    public_inner::a();
}

#[test]
fn functions_reached_through_imports_return() {
    test_private_inner();
    test_use();
    test_use_wildcard();
    test_use_nested();
    test_pub_use();
}
