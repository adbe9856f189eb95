# spark_wallet

The decisions of a Spark wallet client, verified with Verus.

The library (`src/`) performs no input or output. A flow that has to ask someone else (the
low-level signer, the key store, the operators, the service provider) is a chain of values. Each
value holds a question in its fields, and has a method that takes the answer and gives the next
value. The contracts say which question each value asks, and what becomes of every answer.

- `leaf_split`: splitting a leaf into children, from the draft to the finalized leaves. The laws
  say that a split keeps the value of the leaf, that every signing job uses its own nonce, and
  that every signature reaches the transaction it was made for.
- `signer`: where secrets come from, splitting the key of a leaf, signing in batches, and
  preparing transfers, claims, Lightning receives and static deposits. The laws say that the
  secrets of the children sum to the secret of the leaf modulo the order of the group, that a retry
  gives the same keys, and that every operator is told of every leaf with its own share.
- `ssp`: questions to the service provider, and where in its replies the answers stand.
- `sdk`: reading transactions for the development kit.
- `derivation`, `keys`, `frost`, `transaction`, `tree`, `text`, `tagged`, `order`, `byte_map`,
  `by_operator`, `model`, `error`: what the others are made of.

Calls into other crates stand behind functions marked `external_body`, each with a comment that
says what its contract claims of the call.

`app/` is the ordinary Rust around the library: traits for everyone whom the wallet asks, the
loops that ask, and the stored forms of drafts and plans. `tests/` runs the library.
