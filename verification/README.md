# virtio_iommu

A virtio-iommu device whose logic is verified with Verus.

- `src/` is the library. Its contracts say what becomes of every request that a
  guest can send, what an address is translated to, and what the transport sees
  of the device. `src/laws/` states what holds across operations, such as that a
  translation finds what a MAP request mapped.
- `tests/` runs the library on real guest memory and real events.
- `app/` puts the library on a thread: it waits for events, moves descriptors
  between the queues of the transport and the library, and shares the
  translation tables with those that access memory for an endpoint.

What the proofs rest on without being proved themselves:

- that an access to guest memory succeeds exactly if all of its addresses are
  backed by memory (`memory`);
- that a clone of a shared handle is a handle of the same object (`external`);
- that the machine has one of the two byte orders (`byte_order`).

What the byte order is, what guest memory, external mappings and the interrupt
line answer, and what kind an error of the operating system has, is left open.
The contracts say which calls are made with which arguments, and what follows
from each answer. Tables that are shared between threads (`TranslationTables`)
must be changed by one thread only.

Sizes of ranges, ends of mappings and translated addresses are computed modulo
2^64.
