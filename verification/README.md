# flashcard_quiz

The verified core of a flashcard and quiz service. Users keep sets of
flashcards, share them, build quizzes from questions, share quizzes and take
tests on them.

- `src/` is the library, verified with Verus: answer validation, grading,
  sharing, authorisation decisions, partial updates of records, listing plans
  (filters, order, pages), account checks with bcrypt, login tokens with
  jsonwebtoken, the token blacklist's file format, and the rows written when
  records are created. The properties that span several functions are public
  proof functions named `law_...` in `access`, `accounts`, `grading`, `jwt`,
  `queries`, `quiz_questions`, `sharing`, `testing`, `updates` and
  `validator`; the other modules state theirs in the contracts of their
  functions. `outside.rs` holds the trusted declarations and wrappers of the
  outside crates.
- `app/` is the service around it: reading the clock, the environment and
  files, identifier conversions, serialisable copies of library types, and the
  flows that read and write storage through the traits of `app/store.rs`.
- `tests/` runs the library on concrete values.
