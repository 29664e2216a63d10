# thread_board

A small discussion board (accounts, threads, comments) whose rules are
verified with Verus.

- `src/` is the verified library: the message table and its `{}`
  substitution (`error_msg`), the record types (`models`), the form checks
  and the numbering of new rows (`service`), what a request sees of its
  session (`session`), the password format rule and the bcrypt calls
  (`password_format`, `password_hash`), and the laws that span several
  functions (`laws`).
- `app/` is the web server around it: actix-web handlers, the SQLite
  queries (diesel), the Redis session store and the HTML pages. It reads
  what the library needs, hands it over as plain values, and writes what
  the library returns.
- `tests/` runs the library on concrete values.
