# barcelona_extropic

The typography engine of the Barcelona-Extropic font, written in Verus.

- `src/` — the verified engine: glyph dispatch and license tiers (`glyph`,
  `font`), SVG documents and the parameter record (`font`), JSON string
  quoting (`json`), the SHA-256 proof-of-render hash (`digest`), mirror
  transforms (`chiral`) and ambigram glyph pairs (`ambigraph`). Numbers enter
  the engine already written as decimal text.
- `app/` — the floating-point state of the architects (weights, shear,
  viewport, blend factors) and its formatting; every method hands its text to
  the engine.
- `tests/` — executable tests of the engine.
