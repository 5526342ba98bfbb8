# SleepyPods control plane

The control plane of SleepyPods, which keeps Kubernetes workloads asleep until
somebody calls them. It stores what was asked for in Postgres, renders and applies
manifests, wakes instances for proxies, puts them to sleep on the reports of their
sidecars, and hands TLS certificates to proxies.

## Layout

- `src/` is the library, written in Verus: its functions have contracts that are
  proved, and `pub proof fn lemma_*` state what holds of several functions together.
  Only the small functions around calls into other crates are taken on trust.
  - `text`, `string_map`, `same`, `outcome`, `time`, `json`: texts, ordered maps,
    comparison, results, time and JSON values.
  - `ids`, `instance`, `workload`, `sleep_policy`, `materialization`, `route`, `wake`,
    `idle`, `http01`, `certificate`: the domain and its rules.
  - `manifest`, `kubernetes_name`, `materializer`, `kube_materializer`: from a template
    to objects in a cluster.
  - `postgres`: rows, and what is decided over them.
  - `api`, `auth`, `store`, `config`: messages, statuses, callers and settings.
- `app/` is the program around it: Postgres, Kubernetes, gRPC and the clock.
- `tests/` run the library on examples.

## How the two fit together

The library never waits and never reads a clock, a socket or a database. Where the
program has to ask for something in the middle of a decision, the library returns
what to ask for, and a further function takes the answer. Calls into other crates
that only compute are made in the library, behind small functions whose contracts say
what is relied on.
