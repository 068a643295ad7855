use uwb_dispatch::naming::function_name;

#[test]
fn test_function_name() {
    assert_eq!(function_name("naming::test_function_name"), "test_function_name");
}

#[test]
fn function_name_of_paths() {
    assert_eq!(function_name("a::b::native_session_init"), "native_session_init");
    assert_eq!(function_name("plain"), "plain");
    assert_eq!(function_name(""), "");
    assert_eq!(function_name("ends::"), "");
}
