# orbit_link

The decisions behind a link to a Solana cluster, verified with Verus.

The library touches no network, no clock and no key. It takes in what a client, a
clock or a signer gave, and says what follows from it:

- `link`: the link itself, with its payer, lookup tables, commitment and cached fee;
  transactions are compiled and sessions started from here.
- `session`: a state machine that sends a group of transactions, with or without a
  local retry loop, and follows them until they are confirmed. The driver performs an
  action, hands the outcome back as an event, and gets the next action.
- `guarantees`: what is proved of every run of a session, whatever the network does.
- `status`: transaction statuses, and the results that follow from them.
- `fees`: the recommended priority fee and its cache.
- `accounts`: which accounts to ask for, and how those that were fetched are read.
- `transaction`: instructions, lookup tables and compiled messages.
- `async_client`: discriminators, and a client that asks one node and sends through
  another.

`app/` is ordinary Rust around the library: the client trait, the signing, the clock,
and the loop that drives a session. The pauses and the numbers of attempts are
settings that its caller gives.
