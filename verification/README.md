# xsk_rs

AF_XDP sockets over a memfd-backed UMEM, verified with Verus.

`src/` is the library. It makes no system call. Each operation is a state machine:
it says which call comes next and with what arguments, takes the reply, and ends in
a result or in a failure that names what is left to give back.

- `mmap`: creating a memfd, adopting one, and mapping it
- `umem`: the frames of a UMEM and the state that its sockets share
- `socket`: what a socket owns, its creation through libxdp, its entry into an XSKMAP
- `restore`: rebuilding a socket from an inherited descriptor, without libxdp
- `ring`: the rings shared with the kernel
- `laws`: what holds of whole runs, of the rings and of the release order
- `os`, `sys`, `error`, `text`: descriptors, constants, errors and messages

`app/` makes the calls, through `libc` and `libxdp-sys`, and owns the resources.
`tests/` runs the library on plain values.
