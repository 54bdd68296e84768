# structured_clone

Structured cloning around V8's value serializer, verified with Verus.

V8 walks object graphs and owns the objects. This library decides what happens around it: how the
serialized data is framed, in which order a transfer list is validated, serialized and detached,
which handler writes and reads a Web platform object, and how an `ImageData` is constructed and
stored. A decision that needs something of V8 is a state machine: it names the next step
(`request`), the embedder carries the step out, and the machine goes on with the reply (`resume`).

| Module | Contents |
| --- | --- |
| `varint`, `big_endian`, `text`, `value` | numbers on the wire, messages and names, kinds of script values |
| `serialization::envelope` | the envelopes of magic bytes or a marker byte and a version |
| `serialization::trailer` | the envelope with a trailer that lists required interfaces |
| `serialization::serialize`, `serialization::deserialize` | serializing and deserializing with transfers, step by step |
| `serialization::outcome` | what these steps come to as a whole |
| `serialization::options`, `serialization::host_object`, `serialization::tag`, `serialization::error` | options, brand checks, tags, errors |
| `web::image_data` | `ImageData`: constructor and serialized form |
| `web::registry`, `web::handler_table`, `web::tag` | the registry of Web platform objects |
| `web::structured_clone` | `structuredClone` |
| `web_serialize_deserialize` | serialization within one isolate, without an envelope |
| `webidl` | interfaces and conversion errors |

`app/` is the embedder for V8 through `deno_core`. `tests/structured_clone.rs` holds a small embedder
of its own, with a heap of objects and the part of V8's value format that they need.

Data that was stored stays readable: tags and subtags are never renumbered or reused, absent
settings have defaults, and a version is raised only when existing data would be read differently.
