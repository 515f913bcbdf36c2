//! The persistent-state model and every operation that authorizes or
//! mutates it.
//!
//! `Store` holds the four tables.  Its well-formedness predicate carries
//! exactly the invariants the storage layer's unique keys enforced:
//! identifiers are unique across all tables, usernames and emails are
//! unique among teachers, and `(test_id, name)` is unique among results.
//! Because every operation takes the whole store `&mut`, a check-then-insert
//! here is atomic, which is what the storage layer's uniqueness constraint
//! guaranteed under concurrent requests.

use vstd::prelude::*;
use vstd::seq_lib::group_seq_properties;

use crate::credentials::{hash, verify, password_matches};
use crate::errors::Error;
use crate::ids::{id_text, parsed_id, format_id, new_id};
use crate::token::{TOKEN_LIFETIME_SECS, jwt_claims, issue};
use crate::validate::{
    CreateTest,
    LoginTeacher,
    RegisterStudent,
    RegisterTeacher,
    SetLevel,
    register_teacher_messages,
    login_teacher_messages,
    valid_name,
    valid_level,
};

verus! {

/// An authenticated test owner.  The `password` field holds the salted
/// hash, never a plaintext.
#[derive(Debug)]
pub struct Teacher {
    pub id: u128,
    pub username: String,
    pub email: String,
    pub password: String,
}

pub struct TeacherView {
    pub id: u128,
    pub username: Seq<char>,
    pub email: Seq<char>,
    pub password: Seq<char>,
}

impl View for Teacher {
    type V = TeacherView;

    open spec fn view(&self) -> TeacherView {
        TeacherView {
            id: self.id,
            username: self.username@,
            email: self.email@,
            password: self.password@,
        }
    }
}

/// The teacher as returned to clients: the password hash never leaves the
/// store.
#[derive(Debug)]
pub struct FilteredTeacher {
    pub id: String,
    pub name: String,
    pub email: String,
}

/// A container of questions administered to students.
#[derive(Debug)]
pub struct Test {
    pub id: u128,
    pub teacher_id: u128,
    pub name: String,
    pub closed: bool,
}

pub struct TestView {
    pub id: u128,
    pub teacher_id: u128,
    pub name: Seq<char>,
    pub closed: bool,
}

impl View for Test {
    type V = TestView;

    open spec fn view(&self) -> TestView {
        TestView {
            id: self.id,
            teacher_id: self.teacher_id,
            name: self.name@,
            closed: self.closed,
        }
    }
}

/// A per-student enrollment and its running state for one test.  The `id`
/// doubles as the session subject: it is the only credential a student
/// holds.
#[derive(Debug)]
pub struct StudentResult {
    pub id: u128,
    pub test_id: u128,
    pub name: String,
    pub level: i32,
    pub flagged: bool,
}

pub struct ResultView {
    pub id: u128,
    pub test_id: u128,
    pub name: Seq<char>,
    pub level: i32,
    pub flagged: bool,
}

impl View for StudentResult {
    type V = ResultView;

    open spec fn view(&self) -> ResultView {
        ResultView {
            id: self.id,
            test_id: self.test_id,
            name: self.name@,
            level: self.level,
            flagged: self.flagged,
        }
    }
}

/// Content shown for a given difficulty level.  Seeded externally and
/// fetched read-only: nothing here mutates it.
#[derive(Debug)]
pub struct Question {
    pub id: u128,
    pub level: i32,
    pub question: String,
    pub image_path: Option<String>,
}

pub struct QuestionView {
    pub id: u128,
    pub level: i32,
    pub question: Seq<char>,
    pub image_path: Option<Seq<char>>,
}

impl View for Question {
    type V = QuestionView;

    open spec fn view(&self) -> QuestionView {
        QuestionView {
            id: self.id,
            level: self.level,
            question: self.question@,
            image_path: match &self.image_path {
                Some(p) => Some(p@),
                None => None,
            },
        }
    }
}

/// The four tables.
pub struct Store {
    pub teachers: Vec<Teacher>,
    pub tests: Vec<Test>,
    pub results: Vec<StudentResult>,
    pub questions: Vec<Question>,
}

pub struct StoreView {
    pub teachers: Seq<TeacherView>,
    pub tests: Seq<TestView>,
    pub results: Seq<ResultView>,
    pub questions: Seq<QuestionView>,
}

impl View for Store {
    type V = StoreView;

    open spec fn view(&self) -> StoreView {
        StoreView {
            teachers: self.teachers@.map_values(|t: Teacher| t@),
            tests: self.tests@.map_values(|t: Test| t@),
            results: self.results@.map_values(|r: StudentResult| r@),
            questions: self.questions@.map_values(|q: Question| q@),
        }
    }
}

impl StoreView {
    pub open spec fn has_teacher_id(self, id: u128) -> bool {
        exists|i: int| 0 <= i < self.teachers.len() && self.teachers[i].id == id
    }

    pub open spec fn has_test_id(self, id: u128) -> bool {
        exists|i: int| 0 <= i < self.tests.len() && self.tests[i].id == id
    }

    pub open spec fn has_result_id(self, id: u128) -> bool {
        exists|i: int| 0 <= i < self.results.len() && self.results[i].id == id
    }

    /// Whether any row of any table carries this identifier.  Keeping the
    /// identifier spaces disjoint is what lets a token of one role fail on
    /// the other role's store rather than be mistaken for it.
    pub open spec fn has_any_id(self, id: u128) -> bool {
        self.has_teacher_id(id) || self.has_test_id(id) || self.has_result_id(id)
    }

    pub open spec fn has_teacher_username(self, username: Seq<char>) -> bool {
        exists|i: int| 0 <= i < self.teachers.len() && self.teachers[i].username == username
    }

    pub open spec fn has_teacher_email(self, email: Seq<char>) -> bool {
        exists|i: int| 0 <= i < self.teachers.len() && self.teachers[i].email == email
    }

    /// Whether a student of this name is already enrolled on this test.
    pub open spec fn has_registration(self, test_id: u128, name: Seq<char>) -> bool {
        exists|i: int|
            0 <= i < self.results.len() && self.results[i].test_id == test_id
                && self.results[i].name == name
    }

    pub open spec fn teacher_with_id(self, id: u128) -> TeacherView {
        self.teachers[choose|i: int| 0 <= i < self.teachers.len() && self.teachers[i].id == id]
    }

    pub open spec fn test_with_id(self, id: u128) -> TestView {
        self.tests[choose|i: int| 0 <= i < self.tests.len() && self.tests[i].id == id]
    }

    pub open spec fn result_with_id(self, id: u128) -> ResultView {
        self.results[choose|i: int| 0 <= i < self.results.len() && self.results[i].id == id]
    }

    pub open spec fn teacher_with_email(self, email: Seq<char>) -> TeacherView {
        self.teachers[choose|i: int|
            0 <= i < self.teachers.len() && self.teachers[i].email == email]
    }

    /// The storage-level invariants: identifier uniqueness within and
    /// across tables, unique usernames and emails, unique `(test_id, name)`
    /// pairs, and levels within range.
    pub open spec fn wf(self) -> bool {
        &&& forall|i: int, j: int|
            0 <= i < j < self.teachers.len() ==> self.teachers[i].id != self.teachers[j].id
                && self.teachers[i].username != self.teachers[j].username && self.teachers[i].email
                != self.teachers[j].email
        &&& forall|i: int, j: int|
            0 <= i < j < self.tests.len() ==> self.tests[i].id != self.tests[j].id
        &&& forall|i: int, j: int|
            0 <= i < j < self.results.len() ==> self.results[i].id != self.results[j].id && !(
            self.results[i].test_id == self.results[j].test_id && self.results[i].name
                == self.results[j].name)
        &&& forall|i: int, j: int|
            0 <= i < self.teachers.len() && 0 <= j < self.tests.len() ==> self.teachers[i].id
                != self.tests[j].id
        &&& forall|i: int, j: int|
            0 <= i < self.teachers.len() && 0 <= j < self.results.len() ==> self.teachers[i].id
                != self.results[j].id
        &&& forall|i: int, j: int|
            0 <= i < self.tests.len() && 0 <= j < self.results.len() ==> self.tests[i].id
                != self.results[j].id
        &&& forall|i: int|
            0 <= i < self.results.len() ==> 1 <= (#[trigger] self.results[i]).level <= 8
    }
}

impl Store {
    /// An empty store.
    pub fn new() -> (s: Store)
        ensures
            s@.teachers == Seq::<TeacherView>::empty(),
            s@.tests == Seq::<TestView>::empty(),
            s@.results == Seq::<ResultView>::empty(),
            s@.questions == Seq::<QuestionView>::empty(),
            s@.wf(),
    {
        let s = Store {
            teachers: Vec::new(),
            tests: Vec::new(),
            results: Vec::new(),
            questions: Vec::new(),
        };
        proof {
            assert(s@.teachers =~= Seq::<TeacherView>::empty());
            assert(s@.tests =~= Seq::<TestView>::empty());
            assert(s@.results =~= Seq::<ResultView>::empty());
            assert(s@.questions =~= Seq::<QuestionView>::empty());
        }
        s
    }

    /// Create a test owned by `owner`, open for registration.  The
    /// identifier is drawn at random; a collision with an existing one is
    /// an internal error and leaves the store unchanged.
    pub fn create_test(&mut self, owner: u128, req: CreateTest) -> (r: Result<(), Error>)
        requires
            old(self)@.wf(),
        ensures
            final(self)@.wf(),
            match r {
                Ok(()) => valid_name(req.name@) && (exists|id: u128|
                    #![auto]
                    !old(self)@.has_any_id(id) && final(self)@ == (StoreView {
                        tests: old(self)@.tests.push(
                            TestView { id, teacher_id: owner, name: req.name@, closed: false },
                        ),
                        ..old(self)@
                    })),
                Err(e) => final(self)@ == old(self)@ && match e {
                    Error::InvalidEntity(v) => !valid_name(req.name@) && v@.map_values(
                        |s: String| s@,
                    ) =~~= seq!["The test's name must be between 3 and 40 characters long"@],
                    Error::Internal => valid_name(req.name@),
                    _ => false,
                },
            },
    {
        let id = new_id();
        self.create_test_with_id(owner, req, id)
    }

    /// Insert a test row under a caller-supplied identifier.  The outcome
    /// is exact in the identifier: insertion succeeds precisely when the
    /// name is valid and the identifier is unused, so every effect of the
    /// randomly drawn identifier in [`Self::create_test`] is accounted for
    /// here.
    pub fn create_test_with_id(&mut self, owner: u128, req: CreateTest, id: u128) -> (r: Result<
        (),
        Error,
    >)
        requires
            old(self)@.wf(),
        ensures
            final(self)@.wf(),
            match r {
                Ok(()) => valid_name(req.name@) && !old(self)@.has_any_id(id) && final(self)@ == (
                StoreView {
                    tests: old(self)@.tests.push(
                        TestView { id, teacher_id: owner, name: req.name@, closed: false },
                    ),
                    ..old(self)@
                }),
                Err(e) => final(self)@ == old(self)@ && match e {
                    Error::InvalidEntity(v) => !valid_name(req.name@) && v@.map_values(
                        |s: String| s@,
                    ) =~~= seq!["The test's name must be between 3 and 40 characters long"@],
                    Error::Internal => valid_name(req.name@) && old(self)@.has_any_id(id),
                    _ => false,
                },
            },
    {
        if let Err(e) = req.validate() {
            return Err(e);
        }
        if self.contains_id(id) {
            return Err(Error::Internal);
        }
        let t = Test { id, teacher_id: owner, name: req.name, closed: false };
        let ghost pre = self@;
        self.tests.push(t);
        proof {
            assert(self@.tests =~= pre.tests.push(t@));
            assert(self@.teachers =~= pre.teachers);
            assert(self@.results =~= pre.results);
            assert(self@.questions =~= pre.questions);
            assert(self@ == (StoreView { tests: pre.tests.push(t@), ..pre }));
        }
        Ok(())
    }

    /// Whether any row of any table carries this identifier; used to keep
    /// freshly drawn identifiers globally unique.
    fn contains_id(&self, id: u128) -> (r: bool)
        ensures
            r == self@.has_any_id(id),
    {
        let mut i: usize = 0;
        while i < self.teachers.len()
            invariant
                0 <= i <= self.teachers.len(),
                forall|k: int| 0 <= k < i ==> self@.teachers[k].id != id,
            decreases self.teachers.len() - i,
        {
            if self.teachers[i].id == id {
                proof {
                    assert(self@.teachers[i as int].id == id);
                    assert(self@.has_teacher_id(id));
                }
                return true;
            }
            i = i + 1;
        }
        let mut i: usize = 0;
        while i < self.tests.len()
            invariant
                0 <= i <= self.tests.len(),
                forall|k: int| 0 <= k < i ==> self@.tests[k].id != id,
            decreases self.tests.len() - i,
        {
            if self.tests[i].id == id {
                proof {
                    assert(self@.tests[i as int].id == id);
                    assert(self@.has_test_id(id));
                }
                return true;
            }
            i = i + 1;
        }
        let mut i: usize = 0;
        while i < self.results.len()
            invariant
                0 <= i <= self.results.len(),
                forall|k: int| 0 <= k < i ==> self@.results[k].id != id,
            decreases self.results.len() - i,
        {
            if self.results[i].id == id {
                proof {
                    assert(self@.results[i as int].id == id);
                    assert(self@.has_result_id(id));
                }
                return true;
            }
            i = i + 1;
        }
        false
    }

    /// All tests owned by this teacher, in creation order.
    pub fn get_tests(&self, owner: u128) -> (r: Vec<Test>)
        ensures
            r@.map_values(|t: Test| t@) == self@.tests.filter(
                |t: TestView| t.teacher_id == owner,
            ),
    {
        broadcast use group_seq_properties;

        let mut r: Vec<Test> = Vec::new();
        let mut i: usize = 0;
        while i < self.tests.len()
            invariant
                0 <= i <= self.tests.len(),
                self@.tests.len() == self.tests.len(),
                r@.map_values(|t: Test| t@) =~= self@.tests.take(i as int).filter(
                    |t: TestView| t.teacher_id == owner,
                ),
            decreases self.tests.len() - i,
        {
            let ghost prefix = self@.tests.take(i as int);
            proof {
                assert(self@.tests.take(i + 1) =~= prefix.push(self@.tests[i as int]));
                lemma_filter_push(prefix, self@.tests[i as int], |t: TestView| t.teacher_id == owner);
            }
            if self.tests[i].teacher_id == owner {
                let row = &self.tests[i];
                let copy = Test {
                    id: row.id,
                    teacher_id: row.teacher_id,
                    name: row.name.clone(),
                    closed: row.closed,
                };
                r.push(copy);
            }
            i = i + 1;
        }
        proof {
            assert(self@.tests.take(self.tests.len() as int) =~= self@.tests);
        }
        r
    }

    /// Flip the closed flag of the test, provided it is owned by `owner`.
    /// An update matching no row is silently a no-op: the caller sees
    /// success either way.
    pub fn inverse_closed(&mut self, owner: u128, test_id: u128)
        requires
            old(self)@.wf(),
        ensures
            final(self)@.wf(),
            final(self)@.teachers == old(self)@.teachers,
            final(self)@.results == old(self)@.results,
            final(self)@.questions == old(self)@.questions,
            final(self)@.tests.len() == old(self)@.tests.len(),
            forall|i: int|
                0 <= i < old(self)@.tests.len() ==> #[trigger] final(self)@.tests[i] == (if old(
                    self,
                )@.tests[i].id == test_id && old(self)@.tests[i].teacher_id == owner {
                    TestView { closed: !old(self)@.tests[i].closed, ..old(self)@.tests[i] }
                } else {
                    old(self)@.tests[i]
                }),
    {
        match self.find_owned_test(owner, test_id) {
            Some(j) => {
                let row = &self.tests[j];
                let updated = Test {
                    id: row.id,
                    teacher_id: row.teacher_id,
                    name: row.name.clone(),
                    closed: !row.closed,
                };
                self.tests[j] = updated;
                proof {
                    assert forall|i: int| 0 <= i < old(self)@.tests.len() implies #[trigger] self@.tests[i]
                        == (if old(self)@.tests[i].id == test_id && old(self)@.tests[i].teacher_id
                            == owner {
                            TestView { closed: !old(self)@.tests[i].closed, ..old(self)@.tests[i] }
                        } else {
                            old(self)@.tests[i]
                        }) by {
                        if i != j && old(self)@.tests[i].id == test_id {
                            assert(old(self)@.tests[i].id != old(self)@.tests[j as int].id);
                        }
                    };
                    assert(self@.teachers =~= old(self)@.teachers);
                    assert(self@.results =~= old(self)@.results);
                    assert(self@.questions =~= old(self)@.questions);
                }
            },
            None => {},
        }
    }

    /// The index of the test with this identifier and owner, if any.
    fn find_owned_test(&self, owner: u128, test_id: u128) -> (r: Option<usize>)
        ensures
            match r {
                Some(j) => j < self@.tests.len() && self@.tests[j as int].id == test_id
                    && self@.tests[j as int].teacher_id == owner,
                None => !(exists|k: int|
                    0 <= k < self@.tests.len() && self@.tests[k].id == test_id
                        && self@.tests[k].teacher_id == owner),
            },
    {
        let mut i: usize = 0;
        while i < self.tests.len()
            invariant
                0 <= i <= self.tests.len(),
                forall|k: int|
                    0 <= k < i ==> !((#[trigger] self@.tests[k]).id == test_id
                        && self@.tests[k].teacher_id == owner),
            decreases self.tests.len() - i,
        {
            if self.tests[i].id == test_id && self.tests[i].teacher_id == owner {
                proof {
                    assert(self@.tests[i as int].id == test_id && self@.tests[i as int].teacher_id
                        == owner);
                }
                return Some(i);
            }
            i = i + 1;
        }
        None
    }

    /// The results of a test, provided the test is owned by `owner`: the
    /// ownership filter is part of the query itself, so a foreign test
    /// yields zero rows rather than another teacher's data.
    pub fn get_results(&self, owner: u128, test_id: u128) -> (r: Vec<StudentResult>)
        ensures
            r@.map_values(|x: StudentResult| x@) == results_for(self@, owner, test_id),
    {
        broadcast use group_seq_properties;

        let owned = self.find_owned_test(owner, test_id).is_some();
        let mut r: Vec<StudentResult> = Vec::new();
        if !owned {
            proof {
                assert(r@.map_values(|x: StudentResult| x@) =~= Seq::<ResultView>::empty());
            }
            return r;
        }
        let mut i: usize = 0;
        while i < self.results.len()
            invariant
                0 <= i <= self.results.len(),
                self@.results.len() == self.results.len(),
                r@.map_values(|x: StudentResult| x@) =~= self@.results.take(i as int).filter(
                    |x: ResultView| x.test_id == test_id,
                ),
            decreases self.results.len() - i,
        {
            let ghost prefix = self@.results.take(i as int);
            proof {
                assert(self@.results.take(i + 1) =~= prefix.push(self@.results[i as int]));
                lemma_filter_push(
                    prefix,
                    self@.results[i as int],
                    |x: ResultView| x.test_id == test_id,
                );
            }
            if self.results[i].test_id == test_id {
                let row = &self.results[i];
                let copy = StudentResult {
                    id: row.id,
                    test_id: row.test_id,
                    name: row.name.clone(),
                    level: row.level,
                    flagged: row.flagged,
                };
                r.push(copy);
            }
            i = i + 1;
        }
        proof {
            assert(self@.results.take(self.results.len() as int) =~= self@.results);
        }
        r
    }
    /// At most the first three questions of the given level, in seeded
    /// order: what one sitting of that level shows, one question per
    /// attempt.
    pub fn get_questions(&self, level: i32) -> (r: Vec<Question>)
        ensures
            r@.map_values(|q: Question| q@) == limit3(
                self@.questions.filter(|q: QuestionView| q.level == level),
            ),
    {
        broadcast use group_seq_properties;

        let mut r: Vec<Question> = Vec::new();
        let mut i: usize = 0;
        while i < self.questions.len()
            invariant
                0 <= i <= self.questions.len(),
                self@.questions.len() == self.questions.len(),
                r@.map_values(|q: Question| q@) =~= self@.questions.take(i as int).filter(
                    |q: QuestionView| q.level == level,
                ),
            decreases self.questions.len() - i,
        {
            let ghost prefix = self@.questions.take(i as int);
            proof {
                assert(self@.questions.take(i + 1) =~= prefix.push(self@.questions[i as int]));
                lemma_filter_push(
                    prefix,
                    self@.questions[i as int],
                    |q: QuestionView| q.level == level,
                );
            }
            if self.questions[i].level == level {
                let row = &self.questions[i];
                let copy = Question {
                    id: row.id,
                    level: row.level,
                    question: row.question.clone(),
                    image_path: match &row.image_path {
                        Some(p) => Some(p.clone()),
                        None => None,
                    },
                };
                r.push(copy);
            }
            i = i + 1;
        }
        proof {
            assert(self@.questions.take(self.questions.len() as int) =~= self@.questions);
        }
        if r.len() > 3 {
            r.truncate(3);
            proof {
                assert(r@.map_values(|q: Question| q@) =~= limit3(
                    self@.questions.filter(|q: QuestionView| q.level == level),
                ));
            }
        }
        r
    }

    /// The index of the teacher with this username, if any.
    fn find_teacher_by_username(&self, username: &String) -> (r: Option<usize>)
        ensures
            match r {
                Some(j) => j < self@.teachers.len() && self@.teachers[j as int].username
                    == username@,
                None => !self@.has_teacher_username(username@),
            },
    {
        let mut i: usize = 0;
        while i < self.teachers.len()
            invariant
                0 <= i <= self.teachers.len(),
                forall|k: int| 0 <= k < i ==> (#[trigger] self@.teachers[k]).username != username@,
            decreases self.teachers.len() - i,
        {
            if self.teachers[i].username == *username {
                proof {
                    assert(self@.teachers[i as int].username == username@);
                }
                return Some(i);
            }
            i = i + 1;
        }
        None
    }

    /// The index of the teacher with this email, if any.
    fn find_teacher_by_email(&self, email: &String) -> (r: Option<usize>)
        ensures
            match r {
                Some(j) => j < self@.teachers.len() && self@.teachers[j as int].email == email@,
                None => !self@.has_teacher_email(email@),
            },
    {
        let mut i: usize = 0;
        while i < self.teachers.len()
            invariant
                0 <= i <= self.teachers.len(),
                forall|k: int| 0 <= k < i ==> (#[trigger] self@.teachers[k]).email != email@,
            decreases self.teachers.len() - i,
        {
            if self.teachers[i].email == *email {
                proof {
                    assert(self@.teachers[i as int].email == email@);
                }
                return Some(i);
            }
            i = i + 1;
        }
        None
    }

    /// The index of the teacher with this identifier, if any.
    pub(crate) fn find_teacher_by_id(&self, id: u128) -> (r: Option<usize>)
        ensures
            match r {
                Some(j) => j < self@.teachers.len() && self@.teachers[j as int].id == id,
                None => !self@.has_teacher_id(id),
            },
    {
        let mut i: usize = 0;
        while i < self.teachers.len()
            invariant
                0 <= i <= self.teachers.len(),
                forall|k: int| 0 <= k < i ==> (#[trigger] self@.teachers[k]).id != id,
            decreases self.teachers.len() - i,
        {
            if self.teachers[i].id == id {
                proof {
                    assert(self@.teachers[i as int].id == id);
                }
                return Some(i);
            }
            i = i + 1;
        }
        None
    }

    /// The index of the test with this identifier, if any.
    fn find_test_by_id(&self, test_id: u128) -> (r: Option<usize>)
        ensures
            match r {
                Some(j) => j < self@.tests.len() && self@.tests[j as int].id == test_id,
                None => !self@.has_test_id(test_id),
            },
    {
        let mut i: usize = 0;
        while i < self.tests.len()
            invariant
                0 <= i <= self.tests.len(),
                forall|k: int| 0 <= k < i ==> (#[trigger] self@.tests[k]).id != test_id,
            decreases self.tests.len() - i,
        {
            if self.tests[i].id == test_id {
                proof {
                    assert(self@.tests[i as int].id == test_id);
                }
                return Some(i);
            }
            i = i + 1;
        }
        None
    }

    /// The index of the enrollment of this name on this test, if any.
    fn find_registration(&self, test_id: u128, name: &String) -> (r: Option<usize>)
        ensures
            match r {
                Some(j) => j < self@.results.len() && self@.results[j as int].test_id == test_id
                    && self@.results[j as int].name == name@,
                None => !self@.has_registration(test_id, name@),
            },
    {
        let mut i: usize = 0;
        while i < self.results.len()
            invariant
                0 <= i <= self.results.len(),
                forall|k: int|
                    0 <= k < i ==> !((#[trigger] self@.results[k]).test_id == test_id
                        && self@.results[k].name == name@),
            decreases self.results.len() - i,
        {
            if self.results[i].test_id == test_id && self.results[i].name == *name {
                proof {
                    assert(self@.results[i as int].test_id == test_id && self@.results[
                        i as int
                    ].name == name@);
                }
                return Some(i);
            }
            i = i + 1;
        }
        None
    }

    /// The index of the result row with this identifier, if any.
    pub(crate) fn find_result_by_id(&self, id: u128) -> (r: Option<usize>)
        ensures
            match r {
                Some(j) => j < self@.results.len() && self@.results[j as int].id == id,
                None => !self@.has_result_id(id),
            },
    {
        let mut i: usize = 0;
        while i < self.results.len()
            invariant
                0 <= i <= self.results.len(),
                forall|k: int| 0 <= k < i ==> (#[trigger] self@.results[k]).id != id,
            decreases self.results.len() - i,
        {
            if self.results[i].id == id {
                proof {
                    assert(self@.results[i as int].id == id);
                }
                return Some(i);
            }
            i = i + 1;
        }
        None
    }

    /// Register a teacher: validate the fields, refuse duplicate usernames
    /// and emails, hash the password, and insert.  The stored hash
    /// verifies against the registered password; internal failures (the
    /// hashing primitive, an identifier collision) leave the store
    /// unchanged.
    pub fn register_teacher(&mut self, req: RegisterTeacher) -> (r: Result<(), Error>)
        requires
            old(self)@.wf(),
        ensures
            final(self)@.wf(),
            match r {
                Ok(()) => req.spec_valid() && !old(self)@.has_teacher_username(req.username@) && !old(
                    self,
                )@.has_teacher_email(req.email@) && (exists|id: u128, h: Seq<char>|
                    #![auto]
                    !old(self)@.has_any_id(id) && password_matches(req.password@, h) && final(self)@
                        == (StoreView {
                        teachers: old(self)@.teachers.push(
                            TeacherView {
                                id,
                                username: req.username@,
                                email: req.email@,
                                password: h,
                            },
                        ),
                        ..old(self)@
                    })),
                Err(e) => final(self)@ == old(self)@ && match e {
                    Error::InvalidEntity(v) => !req.spec_valid() && v@.map_values(|s: String| s@)
                        == register_teacher_messages(req.email@, req.username@, req.password@),
                    Error::Conflict(m) => req.spec_valid() && (old(self)@.has_teacher_username(
                        req.username@,
                    ) || old(self)@.has_teacher_email(req.email@)) && (if old(
                        self,
                    )@.has_teacher_username(req.username@) {
                        m@ == "This username is already taken."@
                    } else {
                        m@ == "This email is already taken."@
                    }),
                    Error::Internal => req.spec_valid() && !old(self)@.has_teacher_username(
                        req.username@,
                    ) && !old(self)@.has_teacher_email(req.email@),
                    _ => false,
                },
            },
    {
        if let Err(e) = req.validate() {
            return Err(e);
        }
        let RegisterTeacher { email, username, password } = req;
        if self.find_teacher_by_username(&username).is_some() {
            return Err(Error::Conflict(String::from_str("This username is already taken.")));
        }
        if self.find_teacher_by_email(&email).is_some() {
            return Err(Error::Conflict(String::from_str("This email is already taken.")));
        }
        let hashed = match hash(password) {
            Some(h) => h,
            None => {
                return Err(Error::Internal);
            },
        };
        let id = new_id();
        match self.insert_teacher(username, email, hashed, id) {
            Ok(()) => Ok(()),
            Err(e) => {
                proof {
                    assert(e matches Error::Internal);
                }
                Err(e)
            },
        }
    }

    /// Insert a teacher row under a caller-supplied identifier and an
    /// already-derived password hash.  The outcome is exact in both: the
    /// insertion succeeds precisely when username, email and identifier
    /// are all unused, so every effect of the randomly drawn identifier in
    /// [`Self::register_teacher`] is accounted for here.
    pub fn insert_teacher(
        &mut self,
        username: String,
        email: String,
        password_hash: String,
        id: u128,
    ) -> (r: Result<(), Error>)
        requires
            old(self)@.wf(),
        ensures
            final(self)@.wf(),
            match r {
                Ok(()) => !old(self)@.has_teacher_username(username@) && !old(
                    self,
                )@.has_teacher_email(email@) && !old(self)@.has_any_id(id) && final(self)@ == (
                StoreView {
                    teachers: old(self)@.teachers.push(
                        TeacherView {
                            id,
                            username: username@,
                            email: email@,
                            password: password_hash@,
                        },
                    ),
                    ..old(self)@
                }),
                Err(e) => final(self)@ == old(self)@ && match e {
                    Error::Conflict(m) => (old(self)@.has_teacher_username(username@) || old(
                        self,
                    )@.has_teacher_email(email@)) && (if old(self)@.has_teacher_username(
                        username@,
                    ) {
                        m@ == "This username is already taken."@
                    } else {
                        m@ == "This email is already taken."@
                    }),
                    Error::Internal => !old(self)@.has_teacher_username(username@) && !old(
                        self,
                    )@.has_teacher_email(email@) && old(self)@.has_any_id(id),
                    _ => false,
                },
            },
    {
        if self.find_teacher_by_username(&username).is_some() {
            return Err(Error::Conflict(String::from_str("This username is already taken.")));
        }
        if self.find_teacher_by_email(&email).is_some() {
            return Err(Error::Conflict(String::from_str("This email is already taken.")));
        }
        if self.contains_id(id) {
            return Err(Error::Internal);
        }
        let t = Teacher { id, username, email, password: password_hash };
        let ghost pre = self@;
        let ghost tv = t@;
        self.teachers.push(t);
        proof {
            assert(self@.teachers =~= pre.teachers.push(tv));
            assert(self@.tests =~= pre.tests);
            assert(self@.results =~= pre.results);
            assert(self@.questions =~= pre.questions);
            assert(self@ == (StoreView { teachers: pre.teachers.push(tv), ..pre }));
            assert forall|i: int, j: int|
                0 <= i < j < self@.teachers.len() implies self@.teachers[i].id
                != self@.teachers[j].id && self@.teachers[i].username != self@.teachers[j].username
                && self@.teachers[i].email != self@.teachers[j].email by {
                if j == pre.teachers.len() {
                    assert(self@.teachers[i] == pre.teachers[i]);
                    assert(!pre.has_teacher_id(tv.id));
                }
            };
            assert(self@.wf());
        }
        Ok(())
    }

    /// Log a teacher in: validate the request, look the teacher up by
    /// email, verify the password against the stored hash, and issue a
    /// token whose subject is the teacher's identifier.  Bad email and bad
    /// password are one indistinguishable failure.
    pub fn login_teacher(&self, req: LoginTeacher, secret: &str, now: usize) -> (r: Result<
        String,
        Error,
    >)
        requires
            self@.wf(),
            now + TOKEN_LIFETIME_SECS <= usize::MAX,
        ensures
            match r {
                Ok(token) => self@.credentials_match(req.email@, req.password@) && ({
                    let t = self@.teacher_with_email(req.email@);
                    &&& jwt_claims(secret@, token@) == Some(
                        (id_text(t.id), now, (now + TOKEN_LIFETIME_SECS) as usize),
                    )
                    &&& parsed_id(id_text(t.id)) == Some(t.id)
                }),
                Err(e) => match e {
                    Error::InvalidEntity(v) => !req.spec_valid() && v@.map_values(|s: String| s@)
                        == login_teacher_messages(req.email@, req.password@),
                    Error::UnprocessableEntity(m) => req.spec_valid() && !self@.credentials_match(
                        req.email@,
                        req.password@,
                    ) && m@ == "Invalid username/password"@,
                    _ => false,
                },
            },
    {
        if let Err(e) = req.validate() {
            return Err(e);
        }
        let LoginTeacher { email, password } = req;
        let found = self.find_teacher_by_email(&email);
        match found {
            Some(i) => {
                proof {
                    self@.lemma_teacher_with_email_is(i as int, email@);
                }
                let row = &self.teachers[i];
                let verified = verify(password, row.password.clone());
                if verified {
                    Ok(issue(secret, row.id, now))
                } else {
                    Err(Error::UnprocessableEntity(String::from_str("Invalid username/password")))
                }
            },
            None => Err(Error::UnprocessableEntity(String::from_str("Invalid username/password"))),
        }
    }

    /// Register a student on a test: the test must exist and be open, and
    /// the name must be free on that test.  On success a fresh enrollment
    /// at level 1 is inserted and a token bound to its identifier is
    /// issued; every failure leaves the store unchanged.
    pub fn register_student(
        &mut self,
        test_id: u128,
        req: RegisterStudent,
        secret: &str,
        now: usize,
    ) -> (r: Result<(String, u128), Error>)
        requires
            old(self)@.wf(),
            now + TOKEN_LIFETIME_SECS <= usize::MAX,
        ensures
            final(self)@.wf(),
            match r {
                Ok((token, rid)) => {
                    &&& valid_name(req.name@)
                    &&& old(self)@.has_test_id(test_id)
                    &&& !old(self)@.test_with_id(test_id).closed
                    &&& !old(self)@.has_registration(test_id, req.name@)
                    &&& !old(self)@.has_any_id(rid)
                    &&& final(self)@ == (StoreView {
                        results: old(self)@.results.push(
                            ResultView {
                                id: rid,
                                test_id,
                                name: req.name@,
                                level: 1,
                                flagged: false,
                            },
                        ),
                        ..old(self)@
                    })
                    &&& jwt_claims(secret@, token@) == Some(
                        (id_text(rid), now, (now + TOKEN_LIFETIME_SECS) as usize),
                    )
                    &&& parsed_id(id_text(rid)) == Some(rid)
                },
                Err(e) => final(self)@ == old(self)@ && match e {
                    Error::InvalidEntity(v) => !valid_name(req.name@) && v@.map_values(
                        |s: String| s@,
                    ) =~~= seq!["Your name must be between 3 and 40 characters long"@],
                    Error::UnprocessableEntity(m) => valid_name(req.name@) && !old(
                        self,
                    )@.has_test_id(test_id) && m@ == "This test ID is not valid"@,
                    Error::Conflict(m) => valid_name(req.name@) && old(self)@.has_test_id(test_id)
                        && (if old(self)@.test_with_id(test_id).closed {
                        m@ == "This test is closed to new registration"@
                    } else {
                        old(self)@.has_registration(test_id, req.name@) && m@
                            == "This name is already taken"@
                    }),
                    Error::Internal => valid_name(req.name@) && old(self)@.has_test_id(test_id)
                        && !old(self)@.test_with_id(test_id).closed && !old(
                        self,
                    )@.has_registration(test_id, req.name@),
                    _ => false,
                },
            },
    {
        if let Err(e) = req.validate() {
            return Err(e);
        }
        let RegisterStudent { name } = req;
        let rid = new_id();
        let token = issue(secret, rid, now);
        match self.insert_result(test_id, name, rid) {
            Ok(()) => Ok((token, rid)),
            Err(e) => Err(e),
        }
    }

    /// Insert an enrollment at level 1 under a caller-supplied identifier.
    /// The outcome is exact in the identifier: the insertion succeeds
    /// precisely when the test exists and is open, the name is free on it,
    /// and the identifier is unused, so every effect of the randomly drawn
    /// identifier in [`Self::register_student`] is accounted for here.
    /// This check-then-insert is atomic in the store, which is what makes
    /// two concurrent registrations of one name resolve to one winner.
    pub fn insert_result(&mut self, test_id: u128, name: String, id: u128) -> (r: Result<
        (),
        Error,
    >)
        requires
            old(self)@.wf(),
        ensures
            final(self)@.wf(),
            match r {
                Ok(()) => {
                    &&& old(self)@.has_test_id(test_id)
                    &&& !old(self)@.test_with_id(test_id).closed
                    &&& !old(self)@.has_registration(test_id, name@)
                    &&& !old(self)@.has_any_id(id)
                    &&& final(self)@ == (StoreView {
                        results: old(self)@.results.push(
                            ResultView {
                                id,
                                test_id,
                                name: name@,
                                level: 1,
                                flagged: false,
                            },
                        ),
                        ..old(self)@
                    })
                },
                Err(e) => final(self)@ == old(self)@ && match e {
                    Error::UnprocessableEntity(m) => !old(self)@.has_test_id(test_id) && m@
                        == "This test ID is not valid"@,
                    Error::Conflict(m) => old(self)@.has_test_id(test_id) && (if old(
                        self,
                    )@.test_with_id(test_id).closed {
                        m@ == "This test is closed to new registration"@
                    } else {
                        old(self)@.has_registration(test_id, name@) && m@
                            == "This name is already taken"@
                    }),
                    Error::Internal => old(self)@.has_test_id(test_id) && !old(
                        self,
                    )@.test_with_id(test_id).closed && !old(self)@.has_registration(test_id, name@)
                        && old(self)@.has_any_id(id),
                    _ => false,
                },
            },
    {
        let ti = match self.find_test_by_id(test_id) {
            Some(ti) => ti,
            None => {
                return Err(Error::UnprocessableEntity(String::from_str("This test ID is not valid")));
            },
        };
        proof {
            self@.lemma_test_with_id_is(ti as int, test_id);
        }
        if self.tests[ti].closed {
            return Err(Error::Conflict(String::from_str("This test is closed to new registration")));
        }
        if self.find_registration(test_id, &name).is_some() {
            return Err(Error::Conflict(String::from_str("This name is already taken")));
        }
        if self.contains_id(id) {
            return Err(Error::Internal);
        }
        let row = StudentResult { id, test_id, name, level: 1, flagged: false };
        let ghost pre = self@;
        let ghost rv = row@;
        self.results.push(row);
        proof {
            assert(self@.results =~= pre.results.push(rv));
            assert(self@.teachers =~= pre.teachers);
            assert(self@.tests =~= pre.tests);
            assert(self@.questions =~= pre.questions);
            assert(self@ == (StoreView { results: pre.results.push(rv), ..pre }));
            assert forall|i: int, j: int|
                0 <= i < j < self@.results.len() implies self@.results[i].id != self@.results[j].id
                && !(self@.results[i].test_id == self@.results[j].test_id && self@.results[i].name
                == self@.results[j].name) by {
                if j == pre.results.len() {
                    assert(self@.results[i] == pre.results[i]);
                    assert(!pre.has_result_id(rv.id));
                    assert(!pre.has_registration(test_id, rv.name));
                }
            };
            assert(self@.wf());
        }
        Ok(())
    }

    /// The terminal score write: set the student's level, which the engine
    /// reached when it finished.  An update matching no row is silently a
    /// no-op: the caller sees success either way.
    pub fn set_score(&mut self, student_id: u128, req: SetLevel) -> (r: Result<(), Error>)
        requires
            old(self)@.wf(),
        ensures
            final(self)@.wf(),
            match r {
                Ok(()) => valid_level(req.level) && final(self)@.teachers == old(self)@.teachers
                    && final(self)@.tests == old(self)@.tests && final(self)@.questions == old(
                    self,
                )@.questions && final(self)@.results.len() == old(self)@.results.len() && forall|i: int|
                    0 <= i < old(self)@.results.len() ==> #[trigger] final(self)@.results[i] == (if
                old(self)@.results[i].id == student_id {
                    ResultView { level: req.level, ..old(self)@.results[i] }
                } else {
                    old(self)@.results[i]
                }),
                Err(e) => final(self)@ == old(self)@ && match e {
                    Error::InvalidEntity(v) => !valid_level(req.level) && v@.map_values(
                        |s: String| s@,
                    ) =~~= seq!["Invalid level range"@],
                    _ => false,
                },
            },
    {
        if let Err(e) = req.validate() {
            return Err(e);
        }
        match self.find_result_by_id(student_id) {
            Some(j) => {
                let row = &self.results[j];
                let updated = StudentResult {
                    id: row.id,
                    test_id: row.test_id,
                    name: row.name.clone(),
                    level: req.level,
                    flagged: row.flagged,
                };
                self.results[j] = updated;
                proof {
                    assert forall|i: int|
                        0 <= i < old(self)@.results.len() implies #[trigger] self@.results[i] == (
                    if old(self)@.results[i].id == student_id {
                        ResultView { level: req.level, ..old(self)@.results[i] }
                    } else {
                        old(self)@.results[i]
                    }) by {
                        if i != j && old(self)@.results[i].id == student_id {
                            assert(old(self)@.results[i].id != old(self)@.results[j as int].id);
                        }
                    };
                    assert(self@.teachers =~= old(self)@.teachers);
                    assert(self@.tests =~= old(self)@.tests);
                    assert(self@.questions =~= old(self)@.questions);
                }
                Ok(())
            },
            None => Ok(()),
        }
    }
}

impl StoreView {
    /// A teacher holding this email with a matching password.
    pub open spec fn credentials_match(self, email: Seq<char>, password: Seq<char>) -> bool {
        self.has_teacher_email(email) && password_matches(
            password,
            self.teacher_with_email(email).password,
        )
    }

    /// Under well-formedness, the teacher found at a matching index is the
    /// teacher `teacher_with_email` denotes.
    pub proof fn lemma_teacher_with_email_is(self, i: int, email: Seq<char>)
        requires
            self.wf(),
            0 <= i < self.teachers.len(),
            self.teachers[i].email == email,
        ensures
            self.has_teacher_email(email),
            self.teacher_with_email(email) == self.teachers[i],
    {
        assert(self.has_teacher_email(email));
        let k = choose|k: int| 0 <= k < self.teachers.len() && self.teachers[k].email == email;
        if k != i {
            if k < i {
                assert(self.teachers[k].email != self.teachers[i].email);
            } else {
                assert(self.teachers[i].email != self.teachers[k].email);
            }
        }
    }

    /// Under well-formedness, the test found at a matching index is the
    /// test `test_with_id` denotes.
    pub proof fn lemma_test_with_id_is(self, i: int, id: u128)
        requires
            self.wf(),
            0 <= i < self.tests.len(),
            self.tests[i].id == id,
        ensures
            self.has_test_id(id),
            self.test_with_id(id) == self.tests[i],
    {
        assert(self.has_test_id(id));
        let k = choose|k: int| 0 <= k < self.tests.len() && self.tests[k].id == id;
        if k != i {
            if k < i {
                assert(self.tests[k].id != self.tests[i].id);
            } else {
                assert(self.tests[i].id != self.tests[k].id);
            }
        }
    }

    /// Under well-formedness, the teacher found at a matching index is the
    /// teacher `teacher_with_id` denotes.
    pub proof fn lemma_teacher_with_id_is(self, i: int, id: u128)
        requires
            self.wf(),
            0 <= i < self.teachers.len(),
            self.teachers[i].id == id,
        ensures
            self.has_teacher_id(id),
            self.teacher_with_id(id) == self.teachers[i],
    {
        assert(self.has_teacher_id(id));
        let k = choose|k: int| 0 <= k < self.teachers.len() && self.teachers[k].id == id;
        if k != i {
            if k < i {
                assert(self.teachers[k].id != self.teachers[i].id);
            } else {
                assert(self.teachers[i].id != self.teachers[k].id);
            }
        }
    }

    /// Under well-formedness, the result row found at a matching index is
    /// the row `result_with_id` denotes.
    pub proof fn lemma_result_with_id_is(self, i: int, id: u128)
        requires
            self.wf(),
            0 <= i < self.results.len(),
            self.results[i].id == id,
        ensures
            self.has_result_id(id),
            self.result_with_id(id) == self.results[i],
    {
        assert(self.has_result_id(id));
        let k = choose|k: int| 0 <= k < self.results.len() && self.results[k].id == id;
        if k != i {
            if k < i {
                assert(self.results[k].id != self.results[i].id);
            } else {
                assert(self.results[i].id != self.results[k].id);
            }
        }
    }
}

impl Teacher {
    /// The teacher as returned to clients: identifier in text form, the
    /// username under the `name` key, the email, and no password hash.
    pub fn filtered(&self) -> (r: FilteredTeacher)
        ensures
            r.id@ == id_text(self.id),
            r.name@ == self@.username,
            r.email@ == self@.email,
    {
        FilteredTeacher {
            id: format_id(self.id),
            name: self.username.clone(),
            email: self.email.clone(),
        }
    }
}

/// At most the first three elements: the query limit on questions.
pub open spec fn limit3<A>(s: Seq<A>) -> Seq<A> {
    if s.len() <= 3 {
        s
    } else {
        s.take(3)
    }
}

/// What the results query returns: the rows of the test when `owner` owns
/// it, and nothing at all otherwise.
pub open spec fn results_for(sv: StoreView, owner: u128, test_id: u128) -> Seq<ResultView> {
    if exists|k: int|
        0 <= k < sv.tests.len() && sv.tests[k].id == test_id && sv.tests[k].teacher_id == owner {
        sv.results.filter(|x: ResultView| x.test_id == test_id)
    } else {
        Seq::empty()
    }
}

/// A token's subject resolves in at most one role's table: under the
/// store invariant an identifier present among teachers is absent among
/// results and vice versa, so a teacher token presented to the
/// student-guarded path fails at resolution, and conversely.
pub proof fn lemma_roles_exclusive(sv: StoreView, id: u128)
    requires
        sv.wf(),
    ensures
        sv.has_teacher_id(id) ==> !sv.has_result_id(id),
        sv.has_result_id(id) ==> !sv.has_teacher_id(id),
{
    if sv.has_teacher_id(id) && sv.has_result_id(id) {
        let i = choose|i: int| 0 <= i < sv.teachers.len() && sv.teachers[i].id == id;
        let j = choose|j: int| 0 <= j < sv.results.len() && sv.results[j].id == id;
        assert(sv.teachers[i].id != sv.results[j].id);
    }
}

/// After a successful registration of `(test_id, name)`, that pair is
/// taken and the test table is untouched; by the contract of
/// `register_student`, an identical registration attempted against the
/// new state therefore cannot succeed again: it receives a conflict.
pub proof fn lemma_second_registration_conflicts(
    pre: StoreView,
    post: StoreView,
    test_id: u128,
    name: Seq<char>,
    rid: u128,
)
    requires
        post == (StoreView {
            results: pre.results.push(
                ResultView { id: rid, test_id, name, level: 1, flagged: false },
            ),
            ..pre
        }),
    ensures
        post.has_registration(test_id, name),
        post.tests == pre.tests,
        post.has_test_id(test_id) == pre.has_test_id(test_id),
{
    assert(post.results[pre.results.len() as int].test_id == test_id && post.results[
        pre.results.len() as int
    ].name == name);
}

/// Results never leak across teachers: a query for a test owned by one
/// teacher, made under any other teacher's identity, returns zero rows
/// even though the test identifier is valid.
pub proof fn lemma_cross_teacher_isolation(
    sv: StoreView,
    owner_a: u128,
    owner_b: u128,
    test_id: u128,
)
    requires
        sv.wf(),
        sv.has_test_id(test_id),
        sv.test_with_id(test_id).teacher_id == owner_a,
        owner_b != owner_a,
    ensures
        results_for(sv, owner_b, test_id) == Seq::<ResultView>::empty(),
{
    let w = choose|w: int| 0 <= w < sv.tests.len() && sv.tests[w].id == test_id;
    if exists|k: int|
        0 <= k < sv.tests.len() && sv.tests[k].id == test_id && sv.tests[k].teacher_id == owner_b {
        let k = choose|k: int|
            0 <= k < sv.tests.len() && sv.tests[k].id == test_id && sv.tests[k].teacher_id
                == owner_b;
        if k != w {
            if k < w {
                assert(sv.tests[k].id != sv.tests[w].id);
            } else {
                assert(sv.tests[w].id != sv.tests[k].id);
            }
        }
    }
}

/// Filtering distributes over appending one element.
proof fn lemma_filter_push<A>(s: Seq<A>, x: A, pred: spec_fn(A) -> bool)
    ensures
        s.push(x).filter(pred) == s.filter(pred) + (if pred(x) {
            seq![x]
        } else {
            Seq::<A>::empty()
        }),
{
    reveal(Seq::filter);
    assert(s.push(x).drop_last() =~= s);
    assert(s.push(x).filter(pred) =~= s.filter(pred) + (if pred(x) {
        seq![x]
    } else {
        Seq::<A>::empty()
    }));
}

} // verus!
