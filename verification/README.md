# arcrelay_desktop

The decision logic of the ArcRelay desktop client — clipboard drag payloads
and their native encodings, clipboard synchronization rules, remote file
transfers, notifications, quick actions, shortcuts, gesture and gaze helpers —
written in Verus, with each public function's behaviour stated in its
contract and proved.

Layout:

- `src/` — the verified library. Each module states its rules over
  mathematical models (`Seq`, `Map`, `Set`, `Multiset`) and proves the
  executable code against them. Calls into outside crates (`image`, `sha2`,
  `roxmltree`, `uuid`, `base64`, `rand`, `chrono`, `shellexpand`) stand
  behind small trusted wrappers whose doc comments say what they claim.
  Properties that span several functions are stated as public proof
  functions next to the functions they speak of, or as invariants that
  each operation's contract keeps.
- `tests/` — ordinary Rust tests of the library on concrete values.
- `app/` — the unverified edges: file system and process I/O, and copies of
  library types that carry the serialisation derives of the user
  interface's IPC.
