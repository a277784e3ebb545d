# voodoo-doll

An in-cluster Mojaloop participant simulator. Clients connect over a
websocket and ask it to create hub accounts, participants and settlement
models on the switch, to run transfers, and to close settlement windows; the
simulator points the participants' callback endpoints at itself and reports
each transfer's outcome to the client that asked for it.

Layout:

- `src/` is the verified library (Verus):
  - `control_plane.rs`: the registry of connected clients, the participants
    issued to each, and the transfers whose callbacks are awaited, with the
    routing of callbacks and its laws;
  - `settlement.rs`: the decisions on the switch's answers about settlement
    windows (including the bounded polling for a window's closure) and
    settlement models;
  - `transfers.rs`: the callback address and the endpoint overrides made
    before a transfer;
  - `participants.rs`: the names given to created participants;
  - `pod.rs`: names, labels and selectors of the Kubernetes resources, and
    the decision taken while waiting for the pod to run;
  - `rejection.rs`: the reply to refused HTTP requests;
  - `error.rs`: error types and their text.
- `app/` is the program around it: the HTTP and websocket server, the
  protocol types with their serde derives, the Kubernetes manifests and the
  client functions that deploy and reach the simulator.
- `tests/` exercises the library.
