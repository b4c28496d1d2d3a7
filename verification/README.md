# droidnode

Turns an Android phone into a Kubernetes worker node, without root. The agent registers the
phone with a cluster, pulls the images of the pods that are assigned to it, unpacks them, and
runs them with proot.

The rules of the agent are a library whose behaviour is stated in contracts and proved with
Verus. The program around it reads and writes files, sends requests and starts processes.

- `src/` is the library.
  - `text`, `bytes`, `paths`: texts, numbers, bytes and Unix paths
  - `models`, `error`, `config`, `status`: the data of the agent
  - `brokers`: what is sent to registries, to proot and to the control plane
  - `services/foundation`: pulling and unpacking images, running and probing workloads,
    describing the node
  - `services/orchestration`: preparing images, registering the node, reconciling pods
  - `exposers`: the kubelet interface and its certificate
- `app/` is the program.
- `tests/` runs the library.

Fetching, pulling, unpacking and preparing images, launching proot, registering the node,
reconciling pods and setting up the kubelet endpoint take many steps. For each of these the
library holds a state machine that says what is to be done next; the program does it and tells
what came of it. The relation `steps_to` of each machine says exactly what a step does, and the
public proof functions named `law_...` say what holds of every run. Where a single answer decides,
as for a probe or for the creation of a node, a function of the library takes that answer.
