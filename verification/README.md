# bargozin

The decision logic of a desktop tool that tests DNS servers and points the
system at one of them, written in Verus with its behaviour proved.

- `src/` is the verified library:
  - `text`: trimming, line and word splitting, substring search and
    replacement, decimal notation and shell quoting, each stated over
    `Seq<char>`.
  - `urls`: URLs as the `url` crate parses them, kept as plain text.
  - `proxy`: proxy settings, their lock, the custom proxy URL and the
    proxy each HTTP client is given.
  - `task_control`: the cancellation flag.
  - `dns`, `download`: the URL a domain is tested at, the steps of a check
    through one DNS server and of a download test, and how results read.
  - `commands`, `system_dns`, `windows_dns`: the flows that set or reset the
    system DNS server on macOS, Linux and Windows, as state machines that ask
    for commands to be run and decide from what comes back.
- `app/` runs those machines: processes, sockets, DNS queries, HTTP, Win32
  calls, the process-wide state and the serialisable forms of the values.
- `tests/` exercises the library on concrete values.
