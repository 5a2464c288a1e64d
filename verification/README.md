# station_queues

Queues of a station under back-pressure, verified with Verus.

A record that the next one replaces may be skipped; one that is said once has to be kept. The
library decides which way a record is offered to its queue, what a refusal means, which records a
full channel may drop, what is counted and told of the losses, and what the VESC Trampa driver
knows of its boards from the records that went through.

- `src/` is the library. `backpressure`, `writer`, `task`, `losses`, `vesc_model`, `vesc_state`,
  `vesc_communicator` and `main_queue` hold the logic with its contracts; `writer_laws` and
  `vesc_laws` state and prove what holds over any number of calls. `octets`, `ids`,
  `channel` and `tally` hold what is assumed, without proof, of `bytes`, `normfs-types`, `uintn`,
  `tokio` and std's atomics.
- `app/` runs the library on NormFS and tokio. The protobuf messages come in as type parameters.
- `tests/` runs the library on real channels and byte strings.
