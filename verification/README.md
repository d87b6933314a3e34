# CRS EXIF Cleaner

A small desktop utility that removes metadata from dropped photos in place with
ExifTool, and shows how many tags each file had before and after.

- `src/` is the library, verified with Verus:
  - `text`: display names (Unicode whitespace shown as plain spaces) and trimming;
  - `tags`: the tag-counting model (the keys of the first record of ExifTool's JSON,
    without `SourceFile`, `ImageSize` and `Megapixels`), the checks on ExifTool's
    outcome, and the arguments ExifTool is run with;
  - `locate`: where ExifTool is looked for, in which order, and which location wins;
  - `job`: the cleaning of one file as a sequence of steps (check, locate, count,
    strip, count), advanced by the outcome of each;
  - `rows`: the table of the files of the last drop and the outcomes it records;
  - `error`: why cleaning fails, and the text shown for it.
- `app/` is the window (eframe/egui), the cleaning threads, and the calls to the
  file system and to ExifTool.
- `tests/` runs the library on concrete inputs.
