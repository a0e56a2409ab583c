# breadglx

The decision logic of a GLX implementation on top of `breadx`, verified with Verus.

- `src/config`: framebuffer and visual configurations, the rules that select them, and the
  reading of the server's property lists.
- `src/context`: context rules in their classic GLX form, context kinds and the slot of the
  current context, and the steps of binding a context.
- `src/display.rs`, `src/screen.rs`, `src/indirect.rs`: settings from the environment, the
  backend order, function lookup, the drawable property cache (a `dashmap` map), screens and
  the context requests they make.
- `src/dri`: DRI rules and attribute lists, driver configuration matching, driver lookup by
  PCI ids, screen set-up, image formats and modifiers, and the buffer bookkeeping of DRI3
  drawables (back buffer search, buffer fetches, swaps and present events, each multi-step
  operation as a step function from state and event to next state and action).
- `app/`: the I/O around the library: shared libraries, the DRM device, the X connection,
  present events, and the loops that run a swap and a context binding, with the driver's
  part supplied by the caller.
