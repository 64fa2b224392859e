# frascii

A terminal ASCII-art renderer for realtime fractals, and the task runner
that checks the repository.

The project is split in two.

- `src/` is the library, written and proved with Verus: everything that
  decides something without floating point. The cell grid the renderer
  fills (`render`), the glyph ramp (`ramp`), the palettes' names and
  keypoints (`palette`), cell modes (`shade`), switching between the ten
  fractals (`kernel`), where to dive next (`target`), the keyboard table
  (`input`) and what each key changes of the explorer's state (`controls`), animation time (`clock`), the log directive for `-v`
  (`cli`), the greyscale image format (`pgm`), and the verification sweep's
  lanes and bookkeeping (`lane`, `runner`). Each public function states
  what it returns in its contract, and the laws that relate several calls
  are public proof functions beside them.
- `app/` is ordinary Rust around it: the escape-time maths, the complex
  plane geometry and colour interpolation (all floating point), sampling
  with rayon, the ratatui frontend, the clap command line, logging, the
  headless benchmark, and spawning cargo for the sweep. `frascii xtask`
  runs the sweep.

`tests/` exercises the library from outside.
