# vocrit_subscription

The subscription, quota and licensing rules of the Vocrit AI desktop client,
written in Verus and proved against their contracts.

- `src/subscription.rs` — tiers, the stored state, the monthly free quota
  (5 000 characters per calendar month), expiry, the status shown to the user.
- `src/license.rs` — license activation (admin paths decided locally, every
  other key verified by the backend), checkout and payment polling, backend URLs.
- `src/device.rs` — the device identifier (SHA-256 of host and user name).
- `src/clock.rs` — instants and RFC 3339 timestamps through chrono.
- `src/text.rs` — trimming, lower-casing, splitting, decimal and hex formatting.
- `src/shortcut.rs` — what a global shortcut event sets off.
- `src/laws.rs` — properties proved across operations.
- `app/` — persistence, environment, HTTP and the command entry points
  around the library (not verified).
