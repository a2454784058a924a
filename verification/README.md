# libluminate

The typed C surface of the Luminate lighting client: decoding of caller
inputs, validation of every request before it is dispatched to the daemon,
owned builders (policy documents, management patches, setting values,
effects, client and session-scope configuration) and the read accessors of
the values the daemon returns.

- `src/` is the verified library. C pointers appear there as `Option`s: a
  null pointer is `None`, a C string is the bytes before its terminator, an
  output pointer is an optional slot. Every public function states in its
  contract what it returns or changes for every input, over plain models
  (`Seq`, `Set`, `Map`) of the values involved.
- `app/` is the C ABI: `extern "C"` entry points that turn raw pointers into
  those `Option`s and back.
- `tests/` exercises the library on concrete values.

## Assumed rules of `luminate_core`

The data model these values come from (`luminate_core`) is not available to
this crate. Where the C surface relies on its validation, the crate states
the rule observed at the C surface, and marks it in the doc comment as an
assumption:

- a principal needs a non-empty authority and subject;
- a credential needs a non-empty secret;
- a policy rule needs a non-empty ID;
- a target is a device, a surface of it, an element of that surface, or a
  group of the device;
- additive colours are accepted with any decoded channels; the model's own
  check of them is not applied.

## Diagnostics

A failing call records its error in a `Diagnostics` value: a message, or the
daemon error itself. The C surface keeps one per thread (`app/`) and hands it
to the calls that record errors.
