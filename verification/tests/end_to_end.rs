use drawtest::engine::{Action, State, TestState};
use drawtest::store::Store;
use drawtest::validate::{CreateTest, LoginTeacher, RegisterStudent, RegisterTeacher, SetLevel};

const SECRET: &str = "a-test-signing-secret";
const NOW: usize = 1_700_000_000;

/// Teacher registers, logs in, creates "Quiz1"; a student registers on it
/// at level 1, plays three `Next` actions without ever levelling up, and
/// the final level 1 is persisted to that student's row.
#[test]
fn full_assessment_run_persists_level_one() {
    let mut store = Store::new();

    store
        .register_teacher(RegisterTeacher {
            email: String::from("teacher@example.com"),
            username: String::from("teacher"),
            password: String::from("password123"),
        })
        .expect("teacher registration failed");

    let teacher_cookie = store
        .login_teacher(
            LoginTeacher {
                email: String::from("teacher@example.com"),
                password: String::from("password123"),
            },
            SECRET,
            NOW,
        )
        .expect("login failed");

    let teacher = store
        .teacher_auth(SECRET, Some(&teacher_cookie), None, NOW)
        .expect("teacher auth failed");

    store
        .create_test(teacher.id, CreateTest { name: String::from("Quiz1") })
        .expect("test creation failed");
    let tests = store.get_tests(teacher.id);
    assert_eq!(tests.len(), 1);
    let test_id = tests[0].id;

    let (student_cookie, _) = store
        .register_student(test_id, RegisterStudent { name: String::from("Alice") }, SECRET, NOW)
        .expect("student registration failed");

    let student = store
        .student_auth(SECRET, Some(&student_cookie), None, NOW)
        .expect("student auth failed");
    assert_eq!(student.level, 1);

    let mut engine = TestState::new();
    engine.state = State::Testing;
    engine.perform_action(Action::Next);
    engine.perform_action(Action::Next);
    engine.perform_action(Action::Next);
    assert!(matches!(engine.state, State::Finished));

    store
        .set_score(student.id, SetLevel { level: engine.level })
        .expect("terminal score write failed");

    let results = store.get_results(teacher.id, test_id);
    assert_eq!(results.len(), 1);
    assert_eq!(results[0].name, "Alice");
    assert_eq!(results[0].level, 1);
}
