# companion

The logic of the Lovelock desktop companion, verified with Verus: it turns
gameplay events read from Deadlock's log into vibration actions, remembers the
user's setup between runs, and holds the protocol rules of the OpenShock and
PiShock clients.

## Layout

- `src/` is the verified library.
  - `action.rs`: vibration settings, their validation and resolution.
  - `provider.rs`, `providers.rs`: provider setups, targets and errors, and the
    choice of devices a provider addresses.
  - `app.rs`: the application state and every decision the interface makes:
    connection tests, trigger routing with its sequence watermark, the action
    queue's bookkeeping, ability filters, resets, and the game log listener.
  - `persistence.rs`: the saved state, its checks on loading, and when
    changes are written.
  - `logging.rs`: the bounded in-memory log and the writer that splits output
    into lines.
  - `openshock.rs`, `pishock.rs`: validation, request and response rules of the
    two shocker services.
  - `json.rs`, `text.rs`: the JSON values the decoders read, and text helpers.
- `tests/` runs the library on concrete values.
- `app/` is the program around it: the egui interface, file and network I/O,
  worker threads, and the serde forms of the saved state.
