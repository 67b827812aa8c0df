# infers

Core of an on-device inference stack: tensor shapes and host tensors, execution
devices, image buffers, backend configuration, the checks a model session makes on
its inputs and outputs, and the error model that ties them together.

- `src/` is the library, written in Verus: every function is proved against its
  `requires` and `ensures`. Contracts speak of mathematical models (`Seq`, `Map`, `nat`) of
  the data; the few calls into `bytemuck` go through small trusted wrappers in
  `src/bytes.rs`, whose doc comments say what is assumed of them.
- `tests/` exercises the library on concrete values.
- `app/` is ordinary Rust around the library: the Vulkan device (driver calls through
  `ash` and `gpu-allocator`), error types with `std::error::Error`, and the UniFFI
  bindings. Every decision it needs (device and queue selection, extension choice,
  buffer sizes, input checks) is a call into the library.

Not here: loading and running a model needs the ExecuTorch runtime crate, and image
preprocessing needs the image-processing crates; neither is available to this build.
What those steps decide (program header check, input validation and routing, the
skip-staging mask, host-visible mapping checks, turning outputs into tensors, adapter
registration) is in the library; the runtime calls around them are not.
