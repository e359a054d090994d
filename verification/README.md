# riff

Verified building blocks of an FFI binding generator, written in Verus.

- `wire`: the wire format (little-endian integers, length-prefixed UTF-8 strings,
  count-prefixed vectors, tagged options) behind the `WireEncode` / `WireDecode`
  traits, and `WireBuffer`, a framed buffer with a magic/version/flags/size header.
  Decoding a buffer made by `WireBuffer::new` gives the value back
  (`lemma_frame_roundtrip`).
- `ir`, `binding`: the ABI description of exported functions and how each parameter
  and result is bound on the foreign side.
- `naming`: snake_case, PascalCase and camelCase conversion.
- `model`, `swift`: a module model and its Swift names, types, declarations and
  generated source.
- `callback_trait`: callback traits that the foreign side implements.
- `swift_plan`, `templates`: a Swift rendering plan, the templates that print each
  part of it, and the emitter that writes a whole file.

Every function's result is stated as a spec function over `Seq<char>` / `Seq<u8>`.
`app/` holds serde-enabled copies of the callback-trait model.
