# quiz_server

The core of a course, question-bank and quiz server, verified with Verus.

- `src/` is the verified library: roles and permissions (`authz`), sign-in
  sessions and directory lookups (`auth`), courses, question banks, quizzes,
  attempts and their grading, and the small calls into chrono, uuid, rand
  and sha2 that they rest on (`support`). Decisions that the services take
  around the database are functions from what was read to what is answered
  or written.
- `tests/` exercises the library on concrete values.
- `app/` is the HTTP server around it: configuration, PostgreSQL through
  sqlx, the LDAP directory through ldap3, JSON web tokens, and the sword
  controllers that run the library's decisions.
