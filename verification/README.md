# c2pa_validate

A verified library for validating C2PA assets, sidecar manifests and crJSON reports, with
the command-line program around it.

- `src/` is the library, written in Verus: report types and their Markdown and HTML
  rendering, the validation decisions (inputs, trust scenarios, crJSON structure, asset
  reports, run summaries), output naming, and certificate-profile JSON. Calls into the
  C2PA-independent outside crates it uses (`x509-parser`, `der-parser`, `pem`, `hex`,
  `jsonschema`, `std::path`) sit behind small trusted wrappers whose contracts are stated
  next to them.
- `app/` is ordinary Rust: argument parsing, files, network, the C2PA SDK, tracing, and
  YAML/JSON output.
- `tests/` exercises the library.
