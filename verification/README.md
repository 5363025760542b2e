# securelock

The verified core of SecureLock, a desktop lock that pins a chosen set of
applications behind a PIN.

- `src/` is the library, checked by Verus:
  - `lock_controller` — the lock session's state machine (idle / locked);
  - `security_module` — Argon2 PIN hashing and verification, and the
    rate limiter that imposes a cooldown after too many wrong PINs;
  - `commands` — starting and unlocking a session as the front end asks;
  - `window_manager` — which windows are listed, minimized, restored and
    kept out of the foreground, and the desktop toggle as a state machine;
  - `input_interceptor` — which key presses the keyboard hook swallows;
  - `clock`, `text` — a monotonic clock read as numbers, and text helpers.
- `app/` is the Tauri application around it: the Windows API calls, the
  threads, the overlay window and the front end's commands. `tauri` itself
  is not listed in `Cargo.toml`, which holds what the library and its tests
  need; add `tauri = "2"` under `[dependencies]` to build `app/`.
- `tests/` exercises the library.
