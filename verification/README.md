# mediaforge

MediaForge is a local media toolkit for AI agents: a deterministic control plane around
FFmpeg and FFprobe that inspects media, plans an operation, runs it safely and verifies
the result, answering in stable JSON with machine-readable error codes.

## Layout

- `src/` is the library, written in Verus. It holds the tool's decisions on plain values:
  container and codec routing, copy / remux / transcode plans, encoder and hardware
  selection, FFmpeg argument lists, output naming and overwrite safety, request
  routing, input checks and output verification. Each public function states its
  result in a contract that Verus proves; cross-cutting guarantees (the input is never
  chosen as the output, `-y` only with an explicit overwrite, a bounded diagnostics
  tail, even resize dimensions, lossless plans are exactly the copying ones, ...) are
  public proof functions.
- `app/` is the `media` program: command-line parsing, configuration, running FFmpeg and
  FFprobe, the file system, JSON output, and what depends on them: the computations on
  floating-point times, sizes and durations (tempo chains, target bitrates, duration
  agreement), the search for a free output name, and the loop that runs a batch file by
  file. It hands the library plain values and prints what comes back.
- `tests/` exercises the library on concrete inputs.

Text case conversion goes through `str::to_lowercase` and `str::to_uppercase`, whose
results the library names rather than restates; everything else in `src/` is proved.
