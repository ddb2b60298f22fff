# extern_executor

An executor for async Rust whose event loop lives outside Rust: a libuv
loop, a Dart isolate, or any loop written in C.

- `src/` is the verified library: the table of Rust-side tasks
  (`task`), the bookkeeping of the external tasks of a driver (`driver`),
  the decisions of the libuv and Dart drivers (`uv`, `dart`), and the
  replies that the example functions hand to C (`ip`, `file`, and `cstr`
  for the text that C passes as bytes).
- `app/` is the C interface around it: the exported functions, the calls
  into libuv and Dart, wakers, and the example functions that read files,
  look up names and sleep on a tokio runtime.
- `tests/` runs the library on concrete values.
