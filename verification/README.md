# iolinke

An IO-Link device stack (IO-Link Interface Specification v1.1.4) whose
protocol logic is verified with Verus.

## Layout

- `src/` — the verified library.
  - `protocol`, `errors`, `page1`, `event`, `system_command`,
    `parameter_index`: protocol values, Direct Parameter page 1 encodings,
    event qualifiers, system commands and the parameter index table.
  - `dev_config`: the device configuration (identification, Process Data
    lengths, M-sequence capability, MinCycleTime encoding).
  - `parameter_storage`, `storage`, `bounded`: the parameter storage with
    its Data Storage index memory, and the event memory.
  - `system_management`: the System Management state machine.
  - `al`: the application layer — On-request Data handler, Parameter
    Manager, Data Storage, event handler.
  - `dl`: the data link layer — message handler with the M-sequence codec
    (`mseq`), On-request Data, ISDU, event and Process Data handlers.
  - `bindings`, `testing`: values of the C interface and of the test
    environment.
  - `frame_utils`: the master side of a test — M-sequences of each mode on
    the page and ISDU channels, ISDU requests, and the check of a device
    response's checksum.
  - `isdu_sequences`: the master side of an ISDU transfer as a step
    function — the frames that write a request, and the reads of the
    response (busy answers waited out, ABORT, segments counted by the
    I-Service length, the closing IDLE read) — which a test harness drives.
- `app/` — what runs around the library: the device that performs the
  layers' requests on a physical layer and an application, the C interface,
  and the MinCycleTime configured in milliseconds.
- `tests/` — tests of the library, including exchanges of complete master
  messages with the handlers wired together.

## Protocol details the library fixes

- The M-sequence checksum is the 6-bit compression of the octets XORed onto
  the seed 0x52 (A.1.6); a response carries the Event flag and the Process
  Data status in its check/status octet.
- An ISDU request is decoded from its I-Service octet: the length nibble
  (or the extended length octet when the nibble is 1) gives the length of
  the whole ISDU, a 16-bit index is taken low octet first, and the XOR over
  the ISDU must be zero. Responses are encoded the same way. The ISDU write
  request builder of `frame_utils` counts the data octets in the length
  nibble of an index-and-subindex write, so its requests do not follow the
  length rule that the decoder applies.
- MaxUARTframeTime is twelve bit times, rounded up to microseconds.
