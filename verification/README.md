# use_cli

Command-line-adjacent primitives with verified contracts: argument tokens,
short/long/boolean flags, `--key=value` options, environment variable names,
exit codes, prompt answers, command and executable names, stream markers, and
terminal capabilities.

- `src/` is the library, verified with Verus. Each module states its rules as
  spec functions over the characters of a string (`Seq<char>`) and proves every
  public function against them, together with the laws that tie functions
  together (token round trips, whitespace and case insensitivity of answers,
  idempotent newline policies, the partition of argument tokens).
- `app/` holds the process-facing part that Verus does not see: reading the
  environment, the standard streams, and terminal detection. It hands what it
  reads to the library.
- `tests/` exercises the library on concrete values.
