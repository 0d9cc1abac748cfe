# xkbcommon

A binding to the libxkbcommon keyboard library.

- `src/` is the verified library (Verus): keycode ranges, the flag and
  enumeration encodings of the C library, conversion of strings to their C
  form, the reading of status codes and of text that the C functions leave in
  buffers, and the index cursor behind the name iterators.
- `app/` holds the handles (`Context`, `Keymap`, `State`), the FFI
  declarations and the calls into the C library; each decision around a call
  is made by a function of `src/`.
- `tests/` exercises the verified functions on concrete values.
