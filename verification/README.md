# net

Verified building blocks of a network dataplane, written in Verus.

`src/` is the library, and Verus verifies every function in it. The
contracts state what each function does, except where the result rests on
keys drawn per process (the `ahash` flow hash), as the doc comments there say:

- `vni`, `vxlan`, `udp`: VXLAN network identifiers and the VXLAN and UDP
  headers, with parsers and serialisers stated over byte sequences, and the
  laws that tie them together (what is written reads back the same).
- `eth`, `vlan`, `ip`, `headers`, `packet`, `buffer`: the header stack of a
  packet, its metadata and the buffer behind it.
- `pipeline`, `sample_nfs`: network functions over batches of packets and
  their static chaining.
- `ingress`, `egress`, `ipforward`, `ip_nat`, `hash`: the decisions the
  processing stages take on a packet, given what their table lookups gave.
- `kernel`: the kernel driver's choice of interfaces to capture on, and the
  adjacencies read from the kernel's ARP table.

Calls into `etherparse`, `arrayvec` and `ahash` go through a few trusted
items, each documented where it is declared.

`app/` holds the library's types with the derives the verified core cannot
carry (`thiserror`, `serde`), and the reading of the kernel's interfaces and
ARP table (`default-net`, `procfs`). `tests/` holds the tests.
