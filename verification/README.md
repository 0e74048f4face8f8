# bottle_bid

A server for a bidding game. Two players start with 100 coins each and a bottle
in the middle of a table with positions 0 to 10. In each of at most ten rounds
both bid; the higher bid wins the round, is paid, and pulls the bottle one step
to the end of the one who made it. If both bid the same, the players take turns
in winning the round. Player A wins with the bottle at 10, player B with the
bottle at 0, and otherwise the game is a draw.

## Layout

`src/` is the library. It takes every decision of the server, does no input or
output, and is verified with Verus:

- `game`: the rounds of a game
- `bidding`: the dialogue in which a client makes a bid
- `game_master`: the life of a task that runs games
- `manager_start`: how the player manager and its game masters are started
- `player_table`, `player_management`, `player_manager`: the pool of players, the
  search for players who can play, and what happens to players before and after a
  game
- `connection`: the login of a client
- `framing`: how messages are sent, and cut out of a stream of bytes
- `proto_utils`: the messages
- `elo`, `elo_range`, `elo_rounding`: the rating of players
- `database_ops`: the statements for the database, and the update of two ratings
- `types`, `error`: what the parts have in common

What waits for the outside world is a value with two methods: `action` says what
is due, and `advance` moves on when it is told what came of it. The functions
named `next` and `due` say the same in specifications, and the proof functions
named `law_...` state what holds however the outside world behaves.

`tests/` runs the library on concrete values. `app/` is the program: sockets, the
SQLite database, tasks and command line.

## What is taken on trust

- `player_manager`: two functions of `rand`, of which nothing is claimed but that
  a number lies in the range it is drawn from
- `framing`: `CodedOutputStream::write_bytes_no_tag` of `protobuf`, which writes
  the length of the bytes as a varint and then the bytes
