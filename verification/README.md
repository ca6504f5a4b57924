# ppaass

The codec and decision core of a proxy agent, written in Verus.

`src/` is the verified library:

- `frame`, `big_endian`, `relay`, `heartbeat`, `session`, `tunnel`, `control`,
  `data`, `packet`: length-delimited framing, the binary layout of relay
  frames, and the packet codecs, with their round-trip laws.
- `holder`, `seal`: the stores of session encryptions and users' RSA key pairs
  that users of the library provide, and how the codecs look keys up, seal
  and open AES keys, and encrypt and decrypt content.
- `domain`, `config`, `bo`, `error`: the packet types, the agent's
  configuration and its errors.
- `pool`: pooled proxy connections, a bounded first-in first-out queue of
  them, and the decisions of a check round, of a fill and of taking a
  connection.
- `handler`, `server`: where an HTTP proxy request goes, SOCKS5 commands, the
  tunnel request, the replies, and the protocol choice.
- `log_level`, `uuid_text`: reading the log level, and generated identifiers.

`app/` is the program around it: sockets, tasks, timers, serialisation with
`bincode`, and the AES and RSA ciphers. `tests/` runs the library on
concrete values.
