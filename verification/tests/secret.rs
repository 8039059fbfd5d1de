use onepassword_secret::{
    Invocation, OnePasswordSecret, Request, ResolutionError, ResolvedSecret,
};

#[test]
fn invocation_for_the_version_check() {
    let secret = OnePasswordSecret::new(String::from("op://vault/item/field"));
    assert_eq!(
        secret.invocation(Request::VersionCheck),
        Invocation { program: String::from("op"), arguments: vec![String::from("--version")] }
    );
}

#[test]
fn invocation_for_the_read() {
    let secret = OnePasswordSecret::new(String::from("op://vault/item/field"));
    assert_eq!(
        secret.invocation(Request::Read),
        Invocation {
            program: String::from("op"),
            arguments: vec![String::from("read"), String::from("op://vault/item/field")],
        }
    );
}

#[test]
fn invocation_carries_the_reference_as_it_is() {
    for reference in ["", " ", "op://My Vault/an item/a field ", "--version", "read"] {
        let secret = OnePasswordSecret::new(String::from(reference));
        let invocation = secret.invocation(Request::Read);
        assert_eq!(invocation.arguments.len(), 2);
        assert_eq!(invocation.arguments[1], reference);
    }
}

#[test]
fn into_option_of_a_value_and_of_none() {
    assert_eq!(
        ResolvedSecret::Value(String::from("1234")).into_option(),
        Some(String::from("1234"))
    );
    assert_eq!(ResolvedSecret::Value(String::new()).into_option(), Some(String::new()));
    assert_eq!(ResolvedSecret::Absent.into_option(), None);
}

#[test]
fn message_of_each_failure() {
    assert_eq!(ResolutionError::UnsupportedPlatform.message(), "Unsupported OS!");
    assert_eq!(ResolutionError::ToolMissing.message(), "1Password CLI is not installed!");
    assert_eq!(
        ResolutionError::ToolError(String::from("[ERROR] not signed in")).message(),
        "[ERROR] not signed in"
    );
    assert_eq!(ResolutionError::DecodeError.message(), "1Password CLI output is not valid UTF-8!");
}
