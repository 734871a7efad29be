# slots

A three-reel slot machine and the services behind it, with its rules and
its services' decisions verified in Verus.

- `src/` is the verified library `slots`:
  - `symbol`: the pictures, how they are drawn, the pay table and the strip
    that every reel carries;
  - `reel`: which picture a row of a reel's window shows, with the strip
    wrapping in both directions;
  - `game`: the machine's money and phase: starting a spin, the
    idle / spinning / stopping cycle, and the pay of the centre line;
  - `proto`: the messages between the game and wallet services;
  - `game_service`: staking a round, playing it (a fair coin from `rand`)
    and crediting a win;
  - `wallet`: storage keys, judging the result of the stake script, and the
    wallet's answers;
  - `gateway`: the HTTP and socket answers to a round;
  - `auth`: token claims and what a login writes;
  - `ledger`: how the stream consumer records a published movement.
- `tests/` runs the library on concrete values.
- `app/` holds what the library does not: the network services (axum, tonic,
  redis, tokio-postgres), token signing (jsonwebtoken), and the browser client
  (dioxus, web-sys), whose reel motion is floating-point physics.
