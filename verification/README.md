# ferro_babe

Reads Java class files into an inspectable model and prints them in a compact text format.

- `src/` is the library, verified with Verus. `input` checks the class-file header,
  `guard` finds the class files whose switches or branches would overflow the decoder's
  32-bit arithmetic, `decode` hands the bytes to the `rust-asm` decoder and builds the
  `model` from what it returns (`reader` holds the trusted bindings to the decoder), `model`
  holds the decoded class and the borrowed views over it, and `format` renders a class as
  text.
- `app/` wraps the library for ordinary use: error types with `Display`, reading from files
  and readers, rendering floating-point constants, and the `disassemble` command.
- `tests/` exercises the library on hand-assembled class files and hand-built models.
