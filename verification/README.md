# Panda Playground

Chat, sketch and voice messages between nearby devices over a p2panda gossip
network.

- `src/` is the library. It decides everything that can be decided without the
  network, the sound codec or the platform: which part of the network stack to
  spawn next, whether to use the stored identity or to make one, what is
  published for a message, what a subscriber is shown, and what each call
  answers. Its contracts are proved with Verus.
- `src/digest.rs` and `src/text.rs` hold the calls into `p2panda-core`, `hex` and
  the standard library whose contracts are believed without proof.
- `src/node/laws.rs` and `src/api/laws.rs` state what holds of the library as a
  whole. `src/digest.rs` and `src/pcm.rs` state the laws of hexadecimal and of
  sound samples.
- `app/` runs the library: it performs the actions that the library asks for and
  hands back what happened.
- `tests/` runs the library on concrete values.
