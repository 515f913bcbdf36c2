use drawtest::errors::Error;
use drawtest::guard::extract_token;
use drawtest::store::Store;
use drawtest::validate::{CreateTest, LoginTeacher, RegisterStudent, RegisterTeacher};

const SECRET: &str = "a-test-signing-secret";
const NOW: usize = 1_700_000_000;

fn populated_store() -> (Store, String, String) {
    let mut store = Store::new();
    store
        .register_teacher(RegisterTeacher {
            email: String::from("ada@example.com"),
            username: String::from("ada"),
            password: String::from("password123"),
        })
        .expect("registration failed");
    let teacher_token = store
        .login_teacher(
            LoginTeacher {
                email: String::from("ada@example.com"),
                password: String::from("password123"),
            },
            SECRET,
            NOW,
        )
        .expect("login failed");
    let teacher_id = store.teachers[0].id;
    store.create_test(teacher_id, CreateTest { name: String::from("Quiz1") }).unwrap();
    let test_id = store.tests[0].id;
    let (student_token, _) = store
        .register_student(test_id, RegisterStudent { name: String::from("Alice") }, SECRET, NOW)
        .expect("student registration failed");
    (store, teacher_token, student_token)
}

#[test]
fn cookie_token_authenticates_teacher() {
    let (store, teacher_token, _) = populated_store();
    let t = store
        .teacher_auth(SECRET, Some(&teacher_token), None, NOW)
        .expect("teacher auth failed");
    assert_eq!(t.username, "ada");
}

#[test]
fn bearer_header_authenticates_teacher() {
    let (store, teacher_token, _) = populated_store();
    let header = format!("Bearer {teacher_token}");
    let t = store
        .teacher_auth(SECRET, None, Some(&header), NOW)
        .expect("teacher auth via header failed");
    assert_eq!(t.email, "ada@example.com");
}

#[test]
fn header_without_bearer_prefix_is_no_token() {
    let (store, teacher_token, _) = populated_store();
    let r = store.teacher_auth(SECRET, None, Some(&teacher_token), NOW);
    assert!(matches!(r, Err(Error::Authorization(ref m)) if m == "Invalid token"));
}

#[test]
fn missing_token_is_rejected() {
    let (store, _, _) = populated_store();
    let r = store.student_auth(SECRET, None, None, NOW);
    assert!(matches!(r, Err(Error::Authorization(ref m)) if m == "Invalid token"));
}

#[test]
fn expired_token_is_rejected() {
    let (store, teacher_token, _) = populated_store();
    let r = store.teacher_auth(SECRET, Some(&teacher_token), None, NOW + 3600);
    assert!(matches!(r, Err(Error::Authorization(ref m)) if m == "Invalid token"));
}

#[test]
fn cookie_is_preferred_over_header() {
    let (store, teacher_token, _) = populated_store();
    let bogus_header = String::from("Bearer garbage");
    let t = store
        .teacher_auth(SECRET, Some(&teacher_token), Some(&bogus_header), NOW)
        .expect("cookie should win over the bogus header");
    assert_eq!(t.username, "ada");
}

#[test]
fn student_token_authenticates_student() {
    let (store, _, student_token) = populated_store();
    let s = store
        .student_auth(SECRET, Some(&student_token), None, NOW)
        .expect("student auth failed");
    assert_eq!(s.name, "Alice");
    assert_eq!(s.level, 1);
}

#[test]
fn teacher_token_fails_on_student_guard() {
    let (store, teacher_token, _) = populated_store();
    let r = store.student_auth(SECRET, Some(&teacher_token), None, NOW);
    assert!(matches!(r, Err(Error::Authorization(ref m)) if m == "Invalid token"));
}

#[test]
fn student_token_fails_on_teacher_guard() {
    let (store, _, student_token) = populated_store();
    let r = store.teacher_auth(SECRET, Some(&student_token), None, NOW);
    assert!(matches!(r, Err(Error::Authorization(ref m)) if m == "Invalid token"));
}

#[test]
fn stale_principal_is_rejected() {
    let (store, _, _) = populated_store();
    let token = drawtest::token::issue(SECRET, 0xdead_beef, NOW);
    let r = store.teacher_auth(SECRET, Some(&token), None, NOW);
    assert!(matches!(r, Err(Error::Authorization(ref m)) if m == "Invalid token"));
}

#[test]
fn extract_token_prefers_cookie_and_strips_bearer() {
    assert_eq!(
        extract_token(Some("cookie-token"), Some("Bearer header-token")),
        Some(String::from("cookie-token"))
    );
    assert_eq!(
        extract_token(None, Some("Bearer header-token")),
        Some(String::from("header-token"))
    );
    assert_eq!(extract_token(None, Some("Basic abc")), None);
    assert_eq!(extract_token(None, Some("Bearer")), None);
    assert_eq!(extract_token(None, Some("Bearer ")), Some(String::new()));
    assert_eq!(extract_token(None, None), None);
}
