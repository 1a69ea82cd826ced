# photonic_fx

Verified parts of a framework for lighting animation and control.

A scene is a graph of nodes that compute frames of pixels; nodes expose
attributes whose values change over time, and inputs let control interfaces
set values from outside.

`src/` is the verified library (Verus):

- `effects::attrs`: the attribute state machines (button, looper, sequence,
  switch, random) and their bounds;
- `effects::nodes`: the integer arithmetic of nodes (splice cuts and
  concatenation, alert blocks, solid fill), which sources the fading select
  and switch nodes show, and the node declarations;
- `effects::easing`, `effects::registry`: resolving configured names to
  easing curves and to node and attribute kinds;
- `introspection`, `proto`: the model of a running scene and of the control
  protocol's messages;
- `interface_cli`, `interface_grpc`, `interface_mqtt`, `interface_restore`:
  the decisions of the control interfaces (answers, refusals, topics,
  routing, persisted values);
- `grpc_client`, `grpc_cli`: what a remote client knows of a scene, and
  how the text that a user types for an input is read as a value;
- `lua`: declarations of script-driven nodes.

`app/` holds what the library cannot: the nodes and attributes that compute
on floating point, and the loops that read from and write to terminals,
sockets, MQTT brokers and files.

Three parts of the framework stand in neither. The gRPC server and the
remote client's calls over the network need the generated protocol crate,
whose `.proto` definition is not part of this project; `src/` holds the
decisions they make (answers, refusals, lookups, decoding), over a model of
the protocol's messages. Running Lua scripts needs a Lua runtime, which this
project does not build; `src/` holds only the declarations of such nodes.
