# caglla

A trip-planning library, verified with Verus, and a small command-line front
end around it.

The library reads Trip Proposal Envelopes and Proposal Fragments (JSON files
that suggest changes to a trip), validates them, materializes a proposal as a
trip export, and previews what applying a fragment to a trip would do: adding,
updating, deleting, reordering and moving itineraries, notes, expenses,
estimates and reservations. It also holds the trip's data model, money
amounts and currencies, notes, participants, receipts and the Markdown
rendering of a trip.

The functions in `src/` are verified, all but a few small trusted items
(`#[verifier::external_body]`) that make the calls into `serde_json`,
`chrono` and std that Verus cannot read; their contracts are believed, not
proved. Each verified function's `requires` / `ensures` state what it
returns over spec functions and views of the data, and laws that relate
several functions (what a preview shows is what the confirm step writes, what
a check accepts stays accepted) stand as public proof functions beside them.

## Layout

- `src/` — the verified library.
  - `models.rs`, `money.rs`, `money/`, `note.rs`, `participant.rs`,
    `receipt.rs`, `markdown.rs`, `stats.rs`: the data model and its rules.
  - `json.rs`, `text.rs`, `time.rs`: JSON documents as plain values, text
    helpers, and instants; the trusted items stand here.
  - `proposal/`: envelope and fragment validation, materializing, and
    `proposal/apply/`, the fragment apply preview, its checks and the
    decisions of its confirm step.
- `tests/` — tests of the library, run against the compiled crate.
- `app/` — the command-line front end: argument parsing, file reading,
  printing and `--json` output.
