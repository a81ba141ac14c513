# re_viewer

The decisions of a viewer for recordings: what its commands do, what follows from the messages that
come in, what a frame of its window consists of, and how it exports a video of the views that are
shown.

The library neither paints nor touches a disk, a network or a clock. A function takes what is known
of the surroundings as plain values, changes the state of the viewer, and returns the effects that
the surroundings are to carry out, in order. Contracts speak of the state and of the effects as
mathematical values, and Verus proves them.

- `types`, `commands`, `analytics`: the values that decisions are made on, the commands, the effects
- `app`, `system`, `ui_commands`, `frame`: the state of the viewer, its commands, its frames
- `messages`, `sources`, `stores`, `time`, `navigation`, `history`: data, time and what is shown
- `opening`, `saving`, `persistence`, `failures`: files, and what the user is told
- `video_start`, `video_export`, `offscreen`, `video_files`, `gpu_bridge`: video exports
- `rgba`, `text`, `hashed`: pictures, text and hash collections, with the calls into `image`, `wgpu`,
  `ahash` and the standard library that the proofs rest on

`app/` is the window around the library: eframe, the graphics card, file dialogs, ffmpeg.
