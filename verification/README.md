# zwd

The verified core of Zed Workspaces Dock, a tool that opens multi-project Zed
sessions from `.code-workspace` files, either by handing Zed the project
folders or through a marker-protected directory of symbolic links (a dock).

- `src/` is the library, verified with Verus: the dock's name and layout, its
  marker, the decisions taken while a dock is built or rebuilt (which entries
  may be cleared, when a build must stop), directory-name slugs, and the
  arguments passed to Zed.
- `app/` is the `zwd` command around it: argument parsing with `clap`, the
  marker's JSON form with `serde`, the file system and the Zed process.
- `tests/` runs the library on concrete values.
