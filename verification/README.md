# crate_context

The context of one crate as it is rendered into a Bazel `BUILD` file: the rules its
targets render as, their common and build-script attributes, and the user's per-crate
settings applied on top. The library is written in Verus and every function in `src/`
carries a contract that Verus proves.

Layout:

- `src/crate_context.rs` — the context types, their views, and `CrateContext::new` /
  `CrateContext::try_new`, which build a context from the crate graph.
- `src/targets.rs` — which Bazel rule each target of a package renders as.
- `src/dependencies.rs` — the dependencies of a crate, and which settings apply to it.
- `src/overrides.rs` — `CrateContext::with_overrides`, which applies a crate's settings.
- `src/select.rs` — configuration-dependent attributes and how they merge.
- `src/ordset.rs`, `src/keymap.rs` — sets and maps kept as lists, compared by view.
- `src/order.rs`, `src/utils.rs` — text order and text/path helpers; the calls into
  `pathdiff`, `textwrap` and `std::path` stand behind small trusted wrappers there.
- `src/laws.rs` — properties that hold of every context and every merge.
- `app/` — reads `cargo metadata` into the library's values, and gives the context a
  serde form.
