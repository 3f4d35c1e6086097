# slotsfx

A guitar effects rack plugin whose decision logic is verified with Verus.

- `src/` is the verified library:
  - `dsp::reconcile`: how the rack is rebuilt from a new slot configuration;
  - `dsp` (`block_mode`, `after_buffer`, `remove_flagged`,
    `restored_kind`): which blocks run, skip or fade (a bypassed tail fades
    once), and which saved slots come back;
  - `dsp::pitch_detector`: scale quantisation for the auto-tune;
  - `dsp::tuner`: the tuner's sample window, note names and state word;
  - `dsp::ring`: ring-buffer index arithmetic;
  - `files`: the choice and order of model and impulse-response files in
    a folder;
  - `paths`: file paths compared by their components, with Unix or Windows
    rules;
  - `saved`: the saved rack's JSON text, the fields of a saved slot, and
    which saved slots come back as blocks;
  - `params`, `ui_meta`: the editor's parameter tables, slot metadata and
    rack order;
  - `webview`, `text`: asset requests, scripts and MIME types of the web
    editor;
  - `registry`: the instance registry (registered ids were handed out);
  - `host`: per-buffer routing and the sweep capture of linked instances.

  Each public function states its result in its `ensures`; the `law_*`
  proof functions state properties that relate several calls.
- `app/` is the plugin around it: sample processing (floating point),
  file and model loading, the editors and the host plumbing.
- `tests/` runs the library on concrete values.
