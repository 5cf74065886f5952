# tzibbur_bridge

A Telegram client for the Tzibbur group-messaging service. Every group of a connected account
becomes a topic in the user's private chat with the bot: messages of the group arrive there, and
what is written there is posted to the group.

The logic is a library verified with [Verus](https://github.com/verus-lang/verus); the program
around it does the input and output.

## Layout

```
src/           the verified library
  models, wire, pages, pending, ws, json    what the server sends, and how it is read
  error, validation, text, numbers          errors, limits, texts
  http, socket, backoff                     requests, replies, the connection and its pauses
  store/                                    the cache of one account, table by table
  reconcile, sync, catchup, outbox          receiving once, sending until confirmed
  seal, crypto, session                     keys, sealed sessions, signing in and out
  bridge/                                   the bot: topics, forwarding, commands, buttons, cards,
                                            dialogues, reports, rows of the database, login page
tests/         tests of the library
app/           the program: Telegram, HTTP, sockets, SQLite, the web server, the loops
```

## What is proved

Each function states what it returns or changes. Beyond that, proof functions named `law_...` state
what holds of several functions together, for example:

- `sync::law_acked_is_stored`: what is acknowledged to the server has been stored.
- `reconcile::law_no_stored_message_again`, `store::messages::law_storing_is_idempotent`: a message
  that arrives again changes nothing.
- `outbox::law_accepted_is_confirmed`, `outbox::law_confirmation_stays`: an accepted message is
  confirmed, and stays so.
- `bridge::forward::law_forwarded_once`, `law_nothing_left_behind`, `law_delivered_text_is_gone`:
  each message is forwarded once, none is lost, and no forwarded text stays in the cache.
- `crypto::law_session_roundtrip`, `crypto::law_rotation_rewraps`: a sealed session opens again, also
  after the key was changed.

What other crates and the standard library do is stated in small wrappers marked
`#[verifier::external_body]`; their doc comments say what is taken on trust.
