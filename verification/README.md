# airfrog

The verified core of airfrog, a wireless ARM SWD co-processor: the logic
that its firmware runs between the network and the target, with contracts
proved by Verus.

- `src/arm` — ARM debug and access port registers: fields, flags and their
  text.
- `src/bin.rs` — the binary API wire format: parsing and encoding every
  operation, with the round trip proved.
- `src/handler.rs` — carrying out a binary API operation as a sequence of
  SWD calls: which call comes next, and the response once it is done.
- `src/swd.rs`, `src/error.rs` — SWD errors, parity, and the responses and
  HTTP status codes they map to.
- `src/rtt.rs` — RTT control block and buffer descriptors, the local ring
  buffer (first in, first out, proved), and the RTT task's decisions.
- `src/http` — responses and their framing on the wire, request head
  decisions, routing, and every HTML page.
- `src/firmware` — the firmware task's decisions and the One ROM and One ROM
  Lab descriptions.
- `src/net.rs`, `src/device.rs`, `src/mcu.rs`, `src/fmt.rs` — WiFi mode
  decisions, device facts, MCU facts, and number formatting and parsing.

`app/` holds the parts that talk to sockets, the target and JSON, built on
the library's decisions; `tests/` exercises the library.
