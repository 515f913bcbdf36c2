use drawtest::credentials::{hash, verify};

#[test]
fn hash_then_verify_succeeds() {
    let h = hash(String::from("hunter2hunter2")).expect("hashing failed");
    assert!(verify(String::from("hunter2hunter2"), h));
}

#[test]
fn verify_rejects_wrong_password() {
    let h = hash(String::from("correct horse battery")).expect("hashing failed");
    assert!(!verify(String::from("incorrect horse battery"), h));
}

#[test]
fn two_hashes_of_same_password_differ_but_both_verify() {
    let h1 = hash(String::from("samepassword")).expect("hashing failed");
    let h2 = hash(String::from("samepassword")).expect("hashing failed");
    assert_ne!(h1, h2);
    assert!(verify(String::from("samepassword"), h1));
    assert!(verify(String::from("samepassword"), h2));
}

#[test]
fn malformed_stored_hash_verifies_false() {
    assert!(!verify(String::from("whatever"), String::from("not-a-phc-string")));
    assert!(!verify(String::from("whatever"), String::new()));
}
