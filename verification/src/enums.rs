use vstd::prelude::*;
use vstd::string::*;

verus! {

/// Identifier of any stored record (the 128-bit value of a UUID).
pub type Id = u128;

/// The kinds of question a set or a quiz can hold.
#[derive(Clone, Copy, Debug, PartialEq, Eq, Structural)]
pub enum QuestionType {
    MultipleChoice,
    CheckBoxes,
    TextFill,
}

/// What a user who was given a set may do with it, from weakest to strongest.
#[derive(Clone, Copy, Debug, PartialEq, Eq, Structural)]
pub enum Permission {
    View,
    Comment,
    Edit,
}

/// The role of an account.
#[derive(Clone, Copy, Debug, PartialEq, Eq, Structural)]
pub enum Role {
    Staff,
    User,
}

/// Where a test (one attempt at a quiz) stands.
#[derive(Clone, Copy, Debug, PartialEq, Eq, Structural)]
pub enum TestStatus {
    NotStarted,
    InProgess,
    Submitted,
    Abandoned,
}

/// The refusals the library's decisions can give.
#[derive(Clone, Copy, Debug, PartialEq, Eq, Structural)]
pub enum Error {
    RecordNotFound,
    PermissionDenied,
    AccessDenied,
    Published,
    InvalidAnswer,
    TestEnded,
    TestNotEnd,
    UserAlreadyExists,
    HashingFailed,
    VerifyPasswordFailed,
    LoginFailed,
    InvalidTokenList,
    DecodeJwtFailed,
}

/// The order of a listing.
#[derive(Clone, Copy, Debug, PartialEq, Eq, Structural)]
pub enum SortOrder {
    Asc,
    Desc,
}

/// The rank of a permission; a stronger permission includes the weaker ones.
pub open spec fn permission_rank(p: Permission) -> int {
    match p {
        Permission::View => 0,
        Permission::Comment => 1,
        Permission::Edit => 2,
    }
}

impl Permission {
    /// The rank of the permission, as stored.
    pub fn rank(&self) -> (r: i32)
        ensures
            r == permission_rank(*self),
    {
        match self {
            Permission::View => 0,
            Permission::Comment => 1,
            Permission::Edit => 2,
        }
    }

    /// Whether holding this permission allows what `required` allows.
    pub fn includes(&self, required: Permission) -> (ok: bool)
        ensures
            ok == (permission_rank(*self) >= permission_rank(required)),
    {
        self.rank() >= required.rank()
    }

    /// The permission's name as shown to users.
    pub fn to_display_string(&self) -> (s: String)
        ensures
            s@ == permission_name(*self),
    {
        match self {
            Permission::View => String::from_str("View"),
            Permission::Comment => String::from_str("Comment"),
            Permission::Edit => String::from_str("Edit"),
        }
    }
}

pub open spec fn permission_name(p: Permission) -> Seq<char> {
    match p {
        Permission::View => "View"@,
        Permission::Comment => "Comment"@,
        Permission::Edit => "Edit"@,
    }
}

pub open spec fn question_type_name(t: QuestionType) -> Seq<char> {
    match t {
        QuestionType::MultipleChoice => "MultipleChoice"@,
        QuestionType::CheckBoxes => "CheckBoxes"@,
        QuestionType::TextFill => "TextFill"@,
    }
}

impl QuestionType {
    /// The question type's name as shown to users.
    pub fn to_display_string(&self) -> (s: String)
        ensures
            s@ == question_type_name(*self),
    {
        match self {
            QuestionType::MultipleChoice => String::from_str("MultipleChoice"),
            QuestionType::CheckBoxes => String::from_str("CheckBoxes"),
            QuestionType::TextFill => String::from_str("TextFill"),
        }
    }
}

pub open spec fn role_name(r: Role) -> Seq<char> {
    match r {
        Role::Staff => "Staff"@,
        Role::User => "User"@,
    }
}

impl Role {
    /// The role's name as shown to users and written into tokens.
    pub fn to_display_string(&self) -> (s: String)
        ensures
            s@ == role_name(*self),
    {
        match self {
            Role::Staff => String::from_str("Staff"),
            Role::User => String::from_str("User"),
        }
    }
}

} // verus!
