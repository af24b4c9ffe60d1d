# vhost_user_devices

Front ends for vhost-user devices, with the decisions that they make verified by Verus.

`src/` is the verified library. It performs no input or output: it lays messages out and reads
them, says which transfer comes next, and decides what a device does with each outcome.

- `bytes`, `copy`, `decimal`: integers as bytes in either byte order, copying, decimal notation.
- `exchange`, `requests`: messages, replies, and what the payloads of both mean.
- `discovery`, `discovery_laws`, `generic`: a device that learns from its back end what it is.
- `features`: feature words as sets of feature numbers.
- `front_end`: setting up, activating and shutting down a device.
- `eavb`, `frpc`, `glink_cma`, `hab`: the devices whose type is known beforehand.
- `interrupt`, `doorbell`: what has to be raised when a device signals its driver.
- `async_tube`: a tube that is read asynchronously.

`app/` connects the library to sockets, threads, events and an executor.
