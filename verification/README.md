# openvpn3_dbus

The logic behind a COSMIC panel applet for
[openvpn3-linux](https://github.com/OpenVPN/openvpn3-linux), verified with Verus.

| Where | What |
|---|---|
| `src/status.rs`, `src/attention.rs`, `src/event.rs` | openvpn3's numbers, decoded and mapped to what the panel shows and asks |
| `src/machine.rs` | the transition machine: one session at a time |
| `src/logbuf.rs` | captured log lines, bounded per session |
| `src/profile.rs`, `src/roster.rs` | profile labels and the sorted menu |
| `src/worker.rs`, `src/worker_model.rs`, `src/agenda.rs`, `src/calls.rs` | the worker: what to ask of D-Bus and the disk, and what each answer does |
| `src/app.rs`, `src/pages.rs` | the panel's state and what its views show |
| `src/instance.rs` | one applet per login |
| `src/machine_laws.rs`, `src/worker_laws.rs`, `src/log_laws.rs`, `src/app_laws.rs` | what holds whatever happens |
| `app/` | the shell: D-Bus through zbus, the panel through libcosmic, the file picker through ashpd |

The library performs no I/O. `Worker::step` hands out one call at a time, `app/`
performs it and hands the answer to `Worker::resume`; `App::update` turns a message
into effects for `app/` to carry out.

One thing is taken on trust: that zvariant accepts exactly the object paths that
`is_object_path` in `src/object_path.rs` describes.
