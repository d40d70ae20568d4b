# rose_offline_client

The game logic of a ROSE Online client, written in Verus: each function carries a
contract that the verifier proves, and the laws of the library stand as proof functions.

## Layout

- `src/lua4/`: the Lua 4 virtual machine that runs conversation and quest scripts
  (instruction decoding, numbers as IEEE bits, values, one instruction per step).
- `src/quest/`: quest state, quest variables, trigger conditions and rewards.
- `src/scripting/`: the functions and constants that scripts call and read.
- `src/conversation.rs`: templates of dialog messages and their text layout.
- `src/party.rs`, `src/bank.rs`: the party and the bank of the player.
- `src/systems/`: the decisions of the game's systems, each a function from what the
  system reads to what it changes or asks for (commands, animations and their effects
  and sounds, name tags, the login and character select screens, the mouse, chat).
- `src/random.rs`, `src/text.rs`: the calls into `rand` and into the standard
  library's text functions, each with the contract its documentation gives.
- `app/`: what the library cannot hold: the loops that drive the virtual machine and
  the conversation menus through script calls, the float conversions of Lua values and
  the error types shown to the player.
- `tests/`: tests of the library on concrete values.
