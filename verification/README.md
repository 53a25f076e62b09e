# device_capture_system

A capture system in which device nodes publish camera and microphone frames over
multipart message links, and receivers reassemble them.

- `src/` is the library, verified with Verus: the device and frame data model,
  the framing of a frame into a message and back, the life cycle and traffic
  counters of links (senders, receivers, proxies), the listing of the
  configurations a camera or microphone supports, the capture-loop decision,
  16-bit sample decoding and text rendering of endpoints and configurations.
  Sockets are a type parameter of the links, times are passed in, and what a
  device reports is passed in as plain values.
- `app/` is the program around it: sockets, the system clock, cameras,
  microphones, HTTP, threads, the frame-information codec and the command line.
- `tests/` exercises the library on concrete values.
