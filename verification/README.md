# soft_plc

Verified core of a software-defined PLC with an HVAC simulator and two
web front ends.

- `src/hvac.rs`: digital I/O of the HVAC system; valve commands from zone and
  emergency inputs; random simulation of the digital inputs.
- `src/session.rs`: session tokens (`session_<n>`) and the store of active sessions.
- `src/auth.rs`: password verification against stored bcrypt hashes; API key admission.
- `src/web.rs`: page gating behind a session, login handling, traffic totals,
  monitoring-server configuration.
- `src/plc.rs`: PLC front-end configuration.
- `src/storage.rs`: SQL queries over the I/O tables, row trimming, digital columns.
- `app/`: the programs (simulator, servers, GPIO benchmarks): database and
  HTTP plumbing, and the floating-point analog control.

Run the programs with `app logic | server | plc | toggle | mirror`.
