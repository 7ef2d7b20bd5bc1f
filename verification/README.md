# xet_streaming

Streaming upload and download of single files, with its decisions verified in
Verus.

- `src/` is the verified library. It decides, and puts terms into their queue;
  it never waits.
  - `file_info`, `pointer_file`: what identifies an uploaded file, and its
    JSON pointer file.
  - `client`, `upload`: clients that share a configuration, and the life of an
    upload.
  - `reader`: the steps of polling a download's stream of chunks.
  - `streaming_writer`, `background`: the terms of a file, taken in order and
    forwarded in order.
  - `channel_writer`: blocking writes to a channel of chunks.
  - `reader_laws`, `writer_laws`: what holds over whole downloads and whole
    files.
- `app/` performs what the library decides on a tokio runtime, over services
  that its user provides.
- `tests/` runs the library.
