# libfabric

Safe Rust bindings for [libfabric](https://ofiwg.github.io/libfabric/), with the
logic of the bindings verified by Verus.

- `src/` is the verified library. It holds the state of domains, endpoints,
  completion queues, memory regions and address vectors as plain values (an
  object is identified by its address, `Fid`), and decides, from the return codes
  and buffers that libfabric hands back, what each call results in: which error a
  return code names, which resources an endpoint is bound to, how memory-region
  keys travel between peers, which completion belongs to which asynchronous
  operation. Every public function states its result in its contract.
- `app/` makes the calls into the C library (through `libfabric-sys`) and the
  asynchronous waits (through tokio), and hands their results to `src/`. It owns
  the open objects: each is closed when its last owner goes, and holds what it
  relies on (its domain, the queues and counters bound to it) until then.
- `tests/` exercises the library on concrete values.
