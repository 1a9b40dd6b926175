# rewards

The verified core of RewardMore, a bot that runs custom Twitch channel-point
rewards: emote swaps and slots on BTTV, FFZ and 7TV, timeouts, timed chat
modes and Spotify requests.

- `src/` is the library, written in Verus. Every function states its result
  in a contract, and the laws of the library (for example that a shrinking
  slot reward gives up its free slots first, or that `rand(a;b)` does not
  depend on the order of its bounds) are proof functions named `law_*`.
- `tests/` runs the library on concrete inputs.
- `app/` holds the network and storage edges: the JSON forms of the
  library's types, the HTTP clients and the flows that ask the platforms and
  let the library decide.
