# tele

Types and request checks for the Telegram Bot API, verified with Verus.

- `src/` is the library. Every request type checks its fields before it is
  sent (`validate`), with a contract that names the exact reason of each
  refusal in the order the checks run. Every response type keeps the fields
  it does not name in a `JsonMap` (kept in key order) and writes them back
  after its typed fields, never in their place; the
  `lemma_*_extra_cannot_override` proofs state this for each type.
- `src/message/model.rs` decides which kinds of content a message carries.
- `src/message/uploads.rs` matches the file parts of a multipart upload
  against the `attach://` references of a request.
- Reply markup, reply parameters, link preview options and suggested-post
  parameters travel as JSON values: the library carries them but does not
  check their fields, nor the formatting (parse mode and entities) of texts
  and captions, nor the names of upload parts.
- `app/` holds what Verus does not take: the serde conversions (reading chat
  members and poll media once the library has picked the variant), the
  error's `Display`, and the requests that carry floating-point coordinates.
- `tests/` runs the library on concrete values.
