# rugby

Verified building blocks of a Game Boy emulator and its tooling.

`src/` is the library, verified with Verus; `tests/` exercises it on concrete
values; `app/` holds what stands around it: shared ownership of devices,
`Display`/`FromStr` impls that go through floating point, error types with
their messages, command-line value parsers, serialisable configuration copies
and the terminal prompt.

| module | what it holds |
|--------|---------------|
| `arch` | the memory interface, RAM and ROM, registers and the address bus with its laws |
| `parts` | the serial control register and the hardware timer, stepped cycle by cycle |
| `dmg` | physical specs: joypad buttons and screen colours |
| `cfg` | configuration values: models and revisions, option groups and their merge, speeds |
| `gbd` | the debugger's decisions: edges, step counts and breakpoints |
| `bfmt`, `phex`, `chex`, `hexicolor`, `tell` | formatting and parsing of sizes, hex dumps, colours and message levels |
| `wrange`, `derange`, `enuf` | wrapping ranges and enum bit flags |
| `retro` | plain values of the libretro interface |
| `text`, `radix` | character-level helpers shared by the formatters and parsers |
