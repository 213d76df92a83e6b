# superfuse

A virtual filesystem for templated configuration files, backed by
Superposition and a table of file mappings in SQLite.

- `src/` is the verified library:
  - `text`: decimal numbers, substring search, padding, truncation of table cells;
  - `error`: the errors and their messages;
  - `config`: settings from an environment snapshot, the data directory tree,
    the mount options;
  - `storage`: file mappings and what the database's answers mean;
  - `listing`: the mapping table and the report of a finished command;
  - `command`: the command line's commands as a machine of steps and answers;
  - `tree`: which paths of the mounted filesystem are directories and mapped
    files, and the context (`key=value` components, `@label`) a path reads with;
  - `filesystem`: the inode table and the answers to lookup, getattr, open,
    readdir and read;
  - `render`: rendering a template with the configuration values.
- `app/` is the binary: argument parsing, logging, the database queries, the
  provider, mounting and signals. It performs the steps that `command`
  decides and hands back what happened.
- `tests/` runs the library on concrete values.
