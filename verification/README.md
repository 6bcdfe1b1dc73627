# securexe_launcher

The Securexe launcher opens signed `securexe://` links: it checks the
link's Ed25519 signature and validity window, asks the orchestrator
worker for the repo's build manifest, downloads and checksums the build
for this platform, records it in a local library and launches it inside
a per-app sandbox directory.

- `src/` is the verified library (Verus): link parsing and signature
  checks, install planning, the install pipeline as a step function from
  stage and event to next stage and action (cache use, download,
  checksum, discard, hosted or plain launch), the library's update rules,
  request URLs and reply judgements, bundle resolution, launch scripts
  and update checks — each with a contract, plus proof functions stating
  the laws they obey.
- `tests/` runs the library on concrete values.
- `app/` is the Tauri desktop shell: HTTP, files, processes, windows and
  the webview commands. It performs the actions the library's step
  function names and hands back what happened.
