# arrow_tds

Conversion of Arrow record batches into SQL Server rows, written in Verus: what each function
returns is stated in its contract and proved.

There are two ways from a batch to the server.

- `convert` and `token_row` turn a row into semantic SQL Server cells and then into the column data
  of the `tiberius` client.
- `direct` encodes a batch as raw TDS rows: a plan says how each mapped column is encoded, the
  batch is bound to the plan, its cells are measured, and the rows are written into one payload, as
  a whole, range by range, or behind the rows of a buffer. All of these give the same bytes, which
  is proved in `direct::laws`.

## Layout

- `src/` is the library.
  - `arrow_type`, `mssql_type`, `mapping`, `context`: planned types, mappings and policies.
  - `batch`, `cell`: runtime arrays and the cells of either side. Floating point values are held
    as their bit patterns.
  - `classify`: the conversion that a mapping needs.
  - `decimal`, `temporal`, `timezone`, `float`, `utf16`: conversion of values.
  - `text`, `message`, `diagnostic`, `value_error`: errors and their texts.
  - `convert`, `token_row`: rows of cells.
  - `direct`: raw rows.
- `app/` connects the library to Arrow's arrays and to token rows.
- `tests/` runs the library, with Arrow arrays and `tiberius` values where a test needs them.

What outside crates do is stated in the contracts of the items that call them: timezone lookup
(`timezone`), narrowing and printing of 256-bit integers (`decimal`, `cell`), quoting of text
(`text`) and the values of the client (`token_row`).
