# lance_c

The checked core of C bindings for the Lance columnar data format: adding columns to a
dataset (from SQL expressions, as nulls, or from an Arrow stream) and merging an Arrow
stream into it.

`src/` is verified with Verus. It takes the caller's arguments as plain values, decides
which calls are refused and with which error, and says what the storage engine is to do:

- `add_columns`: SQL and all-null columns.
- `add_stream`: columns from an Arrow C stream, as a state machine of actions and events.
- `merge_params`, `merge_insert`: the parameters of a merge, and its course.
- `arrow_import`: what is read of Arrow C structures, and their import.
- `helpers`, `text`, `error`: C strings, decimal text, errors and return codes.

What holds of whole calls (that a stream is consumed exactly once, that nothing is
committed before every check passed, that the caller's result slot is written on success
only) is stated and proved in the proof functions whose names begin with `law_`.

`app/` is the C interface itself: it follows the raw pointers, holds the dataset behind
its lock and runs the engine. `tests/` runs the library with real Arrow streams.
