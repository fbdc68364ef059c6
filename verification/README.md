# rustscan_rs

A fast asynchronous port scanner whose decision logic is verified with Verus.

- `src/` — the verified library: argument validation (`cli`), target
  parsing and CIDR expansion (`targets`, `ip`), port-to-service mapping
  (`service`), probe-outcome classification and result assembly
  (`scanner`), banner cleaning and the banner/TLS exchanges (`probes`,
  `tls`), export records, the report data and the text of the renderings:
  CSV, the JSON document, the startup banner, the coloured terminal report
  and the HTML page (`export`, `report`, `output`, `json_report`,
  `terminal`, `html_output`).
- `app/` — the command-line program: argument parsing, the Tokio scanning
  loop, sockets, TLS handshakes, DNS, printing and file exports.
- `tests/` — tests of the library.
