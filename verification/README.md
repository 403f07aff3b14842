# OpenMixture

A live production switcher: a preview bus, a program bus, an input bank of clips, and
CUT / TAKE transitions between the buses. Media files are dropped onto the window or
picked in an "Add Input" window; video files play through FFmpeg.

## Layout

- `src/` is the switcher's logic, verified with Verus:
  - `studio.rs`: the studio state, its invariant, and `Studio::update`, which applies an
    event (a click, a window event, a frame tick) and returns the work for the host
    (open or close a window, ask for a file, prepare or advance video players);
  - `input_picker_state.rs`: the "Add Input" picker;
  - `model.rs`: transitions, bus targets, input templates, sources and slots;
  - `playback.rs`: the timing and transport state of a video player and the decisions
    of its decode loop;
  - `video.rs`: frame rotation, packing of decoded rows, and display-matrix reading;
  - `paths.rs`, `text.rs`: file names and extensions, shortened names, numbers;
  - `components.rs`: what the widgets show (tags, badges, labels, clock text);
  - `platform_file_dialog.rs`: dialog filters and reading the dialog's output;
  - `windows.rs`: the window identifiers of iced.
- `app/` is the desktop program around it: the iced windows and widgets, the system file
  dialogs, and the FFmpeg decoder.
- `tests/` exercises the library on concrete values.
