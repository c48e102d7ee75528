//! The database handle and the repositories and services that hold it.
use std::sync::Arc;
use vstd::prelude::*;
use sea_orm::DatabaseConnection;

verus! {

/// The database the repositories read and write.
pub struct Database {
    conn: DatabaseConnection,
}

impl Database {
    /// Wraps an open connection.
    pub fn new(conn: DatabaseConnection) -> (db: Self)
        ensures
            db.conn() == conn,
    {
        Database { conn }
    }

    pub closed spec fn conn(&self) -> DatabaseConnection {
        self.conn
    }

    /// The connection that queries go through.
    pub fn get_connection(&self) -> (conn: &DatabaseConnection)
        ensures
            *conn == self.conn(),
    {
        &self.conn
    }
}

/// Storage of the questions (flashcards) of sets.
pub struct QnARepository {
    db: Arc<Database>,
}

/// Storage of quizzes and of who they are shared with.
pub struct QuizRepository {
    db: Arc<Database>,
}

/// Storage of the questions and answers of quizzes.
pub struct QuizQuestionRepository {
    db: Arc<Database>,
}

/// Storage of sets and of who they are shared with.
pub struct SetRepository {
    db: Arc<Database>,
}

/// Storage of tests (attempts at quizzes) and of their answers and results.
pub struct TestRepository {
    db: Arc<Database>,
}

/// Storage of accounts.
pub struct UserRepository {
    db: Arc<Database>,
}

/// Sharing of quizzes, straight on the database.
pub struct SharedQuizService {
    db: Arc<Database>,
}

/// Sharing of sets, straight on the database.
pub struct SharedSetService {
    db: Arc<Database>,
}

impl QnARepository {
    pub fn new(db: Arc<Database>) -> (r: Self)
        ensures
            r.db() == db,
    {
        Self { db }
    }

    pub closed spec fn db(&self) -> Arc<Database> {
        self.db
    }

    pub fn database(&self) -> (db: &Arc<Database>)
        ensures
            *db == self.db(),
    {
        &self.db
    }
}

impl QuizRepository {
    pub fn new(db: Arc<Database>) -> (r: Self)
        ensures
            r.db() == db,
    {
        Self { db }
    }

    pub closed spec fn db(&self) -> Arc<Database> {
        self.db
    }

    pub fn database(&self) -> (db: &Arc<Database>)
        ensures
            *db == self.db(),
    {
        &self.db
    }
}

impl QuizQuestionRepository {
    pub fn new(db: Arc<Database>) -> (r: Self)
        ensures
            r.db() == db,
    {
        Self { db }
    }

    pub closed spec fn db(&self) -> Arc<Database> {
        self.db
    }

    pub fn database(&self) -> (db: &Arc<Database>)
        ensures
            *db == self.db(),
    {
        &self.db
    }
}

impl SetRepository {
    pub fn new(db: Arc<Database>) -> (r: Self)
        ensures
            r.db() == db,
    {
        Self { db }
    }

    pub closed spec fn db(&self) -> Arc<Database> {
        self.db
    }

    pub fn database(&self) -> (db: &Arc<Database>)
        ensures
            *db == self.db(),
    {
        &self.db
    }
}

impl TestRepository {
    pub fn new(db: Arc<Database>) -> (r: Self)
        ensures
            r.db() == db,
    {
        Self { db }
    }

    pub closed spec fn db(&self) -> Arc<Database> {
        self.db
    }

    pub fn database(&self) -> (db: &Arc<Database>)
        ensures
            *db == self.db(),
    {
        &self.db
    }
}

impl UserRepository {
    pub fn new(db: Arc<Database>) -> (r: Self)
        ensures
            r.db() == db,
    {
        Self { db }
    }

    pub closed spec fn db(&self) -> Arc<Database> {
        self.db
    }

    pub fn database(&self) -> (db: &Arc<Database>)
        ensures
            *db == self.db(),
    {
        &self.db
    }
}

impl SharedQuizService {
    pub fn new(db: Arc<Database>) -> (s: Self)
        ensures
            s.db() == db,
    {
        Self { db }
    }

    pub closed spec fn db(&self) -> Arc<Database> {
        self.db
    }

    pub fn database(&self) -> (db: &Arc<Database>)
        ensures
            *db == self.db(),
    {
        &self.db
    }
}

impl SharedSetService {
    pub fn new(db: Arc<Database>) -> (s: Self)
        ensures
            s.db() == db,
    {
        Self { db }
    }

    pub closed spec fn db(&self) -> Arc<Database> {
        self.db
    }

    pub fn database(&self) -> (db: &Arc<Database>)
        ensures
            *db == self.db(),
    {
        &self.db
    }
}

/// The quiz service, over its repository.
pub struct QuizServiceImpl {
    quiz_repository: Arc<QuizRepository>,
}

/// The set service, over its repository.
pub struct SetServiceImpl {
    set_repository: Arc<SetRepository>,
}

/// The account service, over its repository.
pub struct UserServiceImpl {
    user_repository: Arc<UserRepository>,
}

impl QuizServiceImpl {
    pub fn new(quiz_repository: Arc<QuizRepository>) -> (s: Self)
        ensures
            s.repository() == quiz_repository,
    {
        Self { quiz_repository }
    }

    pub closed spec fn repository(&self) -> Arc<QuizRepository> {
        self.quiz_repository
    }

    pub fn quiz_repository(&self) -> (r: &Arc<QuizRepository>)
        ensures
            *r == self.repository(),
    {
        &self.quiz_repository
    }
}

impl SetServiceImpl {
    pub fn new(set_repository: Arc<SetRepository>) -> (s: Self)
        ensures
            s.repository() == set_repository,
    {
        Self { set_repository }
    }

    pub closed spec fn repository(&self) -> Arc<SetRepository> {
        self.set_repository
    }

    pub fn set_repository(&self) -> (r: &Arc<SetRepository>)
        ensures
            *r == self.repository(),
    {
        &self.set_repository
    }
}

impl UserServiceImpl {
    pub fn new(user_repository: Arc<UserRepository>) -> (s: Self)
        ensures
            s.repository() == user_repository,
    {
        Self { user_repository }
    }

    pub closed spec fn repository(&self) -> Arc<UserRepository> {
        self.user_repository
    }

    pub fn user_repository(&self) -> (r: &Arc<UserRepository>)
        ensures
            *r == self.repository(),
    {
        &self.user_repository
    }
}

} // verus!
