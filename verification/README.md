# ffnodes

The verified core of FFNodes, a system that spreads video encoding jobs over client
machines: a server scans media libraries and queues jobs; clients ask for a job,
download the input, encode it with FFmpeg and upload the result.

- `src/` is the library, verified with Verus: the FFmpeg and FFprobe command builders,
  the reading of FFmpeg's output, the server's rules (job states and ordering, client
  heartbeats, path security, output locations, templates, statistics) and the client's
  decisions (encoder arguments, progress lines, the job run as a state machine, OAuth
  addresses, machine identifiers).
- `tests/` runs the library on concrete values.
- `app/` is the unverified code around it: processes, files, HTTP calls and the
  floating-point parts of progress reports.
