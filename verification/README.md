# vpn_hub

The verified core of a VPN service backend: promo codes, traffic accounting,
user profiles, and the hub that VPN node agents connect to.

- `src/` is the library, written in Verus. Every function there carries a
  contract and is proved. Work that needs the database, the network, the
  clock or a socket is written as a state machine (`start` / `step`), so the
  decisions are verified and the caller only performs the requested actions.
  The few calls into `uuid`, `chrono`, `rand` and std text functions sit in
  `src/interop.rs`, each behind a trusted contract.
- `app/` is the service around it: repositories (sqlx), the WebSocket hub
  (axum), the drivers that run the state machines, and serde copies of the
  library's DTOs.
- `tests/` exercises the library on concrete values.
