use passkey_enclave::groups::Group;

#[test]
fn parse() {
    assert_eq!(Group::new_from_str("safe").unwrap(), Group::Safe);
    assert_eq!(Group::new_from_str("sandbox").unwrap(), Group::Sandbox);
    assert_eq!(Group::new_from_str("test").unwrap(), Group::Test);
    assert!(Group::new_from_str("oops").is_err());
}

#[test]
fn least_privilege() {
    assert_eq!(std::cmp::min(Group::Safe, Group::Safe), Group::Safe);
    assert_eq!(std::cmp::min(Group::Safe, Group::Sandbox), Group::Sandbox);
    assert_eq!(std::cmp::min(Group::Sandbox, Group::Safe), Group::Sandbox);
    assert_eq!(std::cmp::min(Group::Safe, Group::Test), Group::Test);
    assert_eq!(std::cmp::min(Group::Test, Group::Safe), Group::Test);
    assert_eq!(std::cmp::min(Group::Sandbox, Group::Sandbox), Group::Sandbox);
    assert_eq!(std::cmp::min(Group::Sandbox, Group::Test), Group::Test);
    assert_eq!(std::cmp::min(Group::Test, Group::Sandbox), Group::Test);
    assert_eq!(std::cmp::min(Group::Test, Group::Test), Group::Test);
}
