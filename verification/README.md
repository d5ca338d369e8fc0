# todo_list

A command-line to-do list kept in a SQLite database.

- `src/` is the library, verified with Verus. It decides which subcommand was
  given (`initialization_functions`), what each command asks of the database
  and in which order (`command_logic`, `database_structures`, as state
  machines over the requests and answers of `database`, each request with
  the SQL statement and bound values that carry it out), how the records
  change with the answers, and the exact text printed (`report`, `status`,
  `decimal`).
- `app/` is the program: it reads the command line with clap, runs the
  library's statements with sqlx on the database named by
  `TODO_DATABASE_LOCATION`, feeds the answers back, and prints.
- `tests/` runs the library on concrete values.
