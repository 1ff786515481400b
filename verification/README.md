# claire

Incident response for EC2 instances: start an investigation (a Step Functions
execution that tags the instance, snapshots its volumes and collects
evidence into an S3 bucket), follow it, isolate the instance, revoke the
credentials it may have leaked, open a manual investigation on copies of its
volumes, and clear or purge what an investigation left behind.

Layout:

- `src/` is the verified library (Verus). It holds the decisions taken
  between AWS calls: which tagged resources are untagged or deleted and in
  which order, how investigations are read from the bucket listing, the JSON
  documents sent to Step Functions, Lambda and IAM, how the create-extractor
  Lambda's reply is read, when polling stops, which devices volumes are
  attached at, and the errors of each step. The JSON documents are written
  as compact JSON with sorted keys, which is what `serde_json` produces for
  them as long as its `preserve_order` feature stays off.
- Not in `src/`: reading the SDK's answers into the library's values, and the
  tags of an investigation's alert, which `app/` reads from the `tags` list
  of `<investigation>/alert.json` (a list of `{"key", "value"}` objects); that
  file layout is this tool's assumption about what the create-investigation
  Lambda writes.
- `app/` is the `claire` command: argument parsing, the AWS SDK calls, the
  output, and the loops that alternate calls with the library's decisions.
- `tests/` exercise the library on concrete values.
