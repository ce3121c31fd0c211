# import_context

Passing context between procedural macros.  A macro that needs data exported
by other macros asks for it with `import`; if the data is missing, the macro's
run is abandoned and the macro is re-invoked through the exporting macros, each
of which appends its data to the invocation, until the call comes back to the
macro that asked.

* `src/` is the verified library (Verus).  It works on a plain token model
  (`tokens`), and states and proves the invocation format (`passer`), the
  bookkeeping of a run (`session`), groups of imports (`lazy`), the exporting
  macro (`export`), unique macro names (`naming`) and how the data travels
  along the chain of exporters (`relay`).
* `app/` is ordinary Rust around it: conversions to and from the compiler's
  token types, the thread-local session, the unwinding that abandons a run,
  and the surrogate thread that carries tokens across macro invocations.
* `tests/` exercises the library on concrete token streams.
