# midds

Music Industry Decentralized Data Structures: the payload types of musical
works, recordings and releases, with their on-chain structural validation,
tolerant identifier parsers, check-digit verifiers, parser-tolerant
builders and test fixtures. The library is written in Verus; every function
carries a contract that Verus proves, except the thin trusted wrappers
around outside calls, whose contracts Verus takes as given:

- `fixtures::rng`: `seeded_rng` (`ChaCha20Rng::seed_from_u64`), `rng_between`
  (`gen_range` on `u32`) and `rng_u64` (`gen::<u64>`), with the names
  `chacha_u32_between` and `chacha_u64`: each draw is the stream's value at
  the generator's seed and position, which `FixtureRng` carries as ghost
  state; and the declaration of `ChaCha20Rng`. The payloads the generators
  produce are spelled out over these names in `fixtures::draws`.
- `fixtures::corpus`: `parse_string_array` (`serde_json::from_str`), with
  the name `json_string_array` for its result.
- `parse`: `regex_matches_white_space` (the `regex` crate's `\s`), stated
  as the Unicode `White_Space` property spelled out in
  `white_space_property` (std's `char::is_whitespace` is the same property,
  computed and proved in `char_is_whitespace`);
  `regex_matches_decimal_digit` (`\d`, Unicode `Nd`), with the name
  `regex_decimal_digit` and its ASCII members stated.
- `text`: `push_char` (std `String::push`).

Layout:

- `src/` — the verified library.
  - `identifier`, `shared`, `musical_work`, `recording`, `release`,
    `lists`, `scan`: payload types and the rules `validate_format` applies,
    each stated as a spec function (the first violated rule decides the
    error).
  - `canonical`: identifiers carried by a valid payload are well-formed,
    hence canonical parser inputs.
  - `checksum`: warning-only check-digit verifiers.
  - `parse`, `builder`, `error`, `text`: tolerant parsers and builders that
    report every failing field at once.
  - `fixtures`: checksum-correct identifier generators, fixture builders,
    seeded generation, boundary payloads, corpora and the deterministic
    half of the property-test strategies, including the assembly of payloads
  from drawn pieces.
  - `runtime_api`, `rpc`: records and error codes surfaced to off-chain
    consumers.
- `tests/` — the test suite, run against the compiled library.
- `app/` — what stays outside the proofs: SCALE / JSON wire copies of the
  types, `Display` error types, corpus files read from disk and the
  `proptest` strategies.
