# dbflux

The verified core of the DBFlux desktop database client, written in Verus.

`src/` holds the logic with its contracts and laws:

- `release_channel`: the release channel a build belongs to and the identity
  (application id, name, database file, client identity) that follows from it.
- `update_check`: which published release, if any, a build is told about;
  version precedence comes from the `semver` crate.
- `value_format`: detecting, pretty-printing, compacting and validating a
  cell's value as JSON (`serde_json`), XML (`quick-xml`) or text.
- `value_panel`: the state of the single-cell editor panel.
- `tab_bar`, `menu`: the document tab bar's context menu, keyboard
  navigation, drag marker and database bands.
- `context_menu`: the entries of the results grid's context menu.
- `record`: which row the record view shows and how its fields look.
- `general_settings`: the General settings page: form rows, keyboard and
  pointer handling, dropdown mappings, unsaved changes and the save checks.
- `migration`: the steps of the settings-table migration.
- `icon_resource`: the resource script that embeds the icon in the Windows
  executable.
- `text`, `numbers`: character-level helpers and decimal numbers.

`app/` holds what talks to the outside world: the HTTP request of the update
check, the SQLite statements of the migration, and pixel arithmetic for the
tab menu. `tests/` runs the library on concrete values.
