# rubrika_models

The model platform of a grading application, written in Verus: every
function in `src/` carries a contract that Verus proves.

- `src/` — the verified library: the legacy profile store (`config`), the
  model registry with its lifecycle, capability and benchmark evidence
  (`platform`, `benchmark`, `capability_probe`), task routing (`router`,
  `runtime_service`), runtime leases and the process decisions of the model
  server manager (`lease`, `server_control`, `process_status`,
  `process_identity`, `model_step`), endpoint privacy (`endpoint_privacy`),
  transport limits (`gateway_transport`), the table of managed server
  processes (`runtime_table`), model inputs (`input_image`, `page_window`,
  `geometry`), and the reading of model replies: the JSON value model
  (`json`), question text and identity replies (`model_reply`), answer OCR
  review metadata and suggested corrections (`ocr_reply`), and drafted
  rubrics (`rubric_reply`), on top of the text helpers of `model_text`.
  Reading text as JSON is left to a reader the caller passes in, so the
  contracts say what is handed to it and what is done with what it
  returns.
- `tests/` — tests of the library on concrete values.
- `app/` — what stays outside the proofs: files, the environment, JSON
  persistence and reading (serde_json), name resolution and the
  floating-point metric policy.

Calls into outside crates (`sha2`, `hex`, `uuid`, `chrono`, `url`) and the
std functions vstd does not specify go through small trusted wrappers, each
documented with what its contract assumes.
