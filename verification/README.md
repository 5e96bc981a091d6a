# xclod

A small command-line helper for turntable photogrammetry: it extracts JPEG
frames from videos with ffmpeg (copying the video's metadata into every frame
with exiftool), converts Autodesk FBX models to OBJ with a bundled assimp, and
keeps its folders and frame rate in a TOML config file.

- `src/` is the verified library (Verus): config defaults and locations, the
  `set` command's rules, the command-line decisions (which input, which
  folders), the file selection and naming of a conversion, the ffmpeg and
  exiftool argument lists, and the text helpers they rest on (decimal
  rendering, ASCII case folding, lexicographic sorting).
- `app/` is the program around it: argument parsing (clap), the prompt
  (dialoguer), TOML (serde/toml), the file system, the child processes
  (ffmpeg-sidecar, assimp, exiftool), threads and progress bars.
- `tests/` runs the library on concrete values.

The bundled assimp binaries are read from `vendor/<os>/` at build time.
