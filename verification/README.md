# vulcan-ui

The application shell of Vulcan, as a verified library: everything the shell
decides, checked by Verus against its contracts, with drawing left to the
renderer.

## Layout

- `src/` — the library.
  - `design_tokens`, `icons`: the prototype's design values and glyph names.
  - `tokens`: reading colour tokens (`rgb_of`, `Palette`) and recognising pixel
    lengths (`pixel_text`).
  - `text`: trimming, substring search and decimal formatting over the
    characters of strings.
  - `palette`: the palette's rows and the case-insensitive filter over them.
  - `props`, `rendering`: the shell's properties and which density tokens each
    density reads.
  - `shell`: the shell's state and the transitions input performs, with the
    laws they keep (a second click on a rail destination collapses the tool
    window and a third reopens it, density cycles through all three, ...).
  - `composition`: which regions and overlays the window draws.
  - `fixture`, `states`, `fonts`: the sample project the prototype composes,
    the states the shell reaches, and the typeface names.
  - `gates`: the FNV-1a digest, value quoting, the measurements path, the
    `--rtt` profiles and discrepancy triage of the fidelity and budget gates.
  - `token_output`: the JSON document and the module entries written for
    extracted design values.
  - `measure`: the measuring run's scripted inputs and the rule that decides
    when the shell has gone quiet.
- `tests/` — the library's tests.
- `app/` — the GPUI window that draws the shell (`shell-preview`): pixel
  geometry, drag handles and frame timing, which are floating point or I/O.
