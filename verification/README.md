# astro_aski

Natal-chart logic with Verus proofs.

- `src/` — the verified library: zodiac signs and elements (`zodiac`), the
  chart's planets, the ephemeris bodies and essential dignities (`planet`),
  aspects, their orbs and the planet pairs tested for them (`aspect`), and the
  queue of drawing commands with the vertex order of a ring-sector outline
  (`draw`). Each public function states its result exactly; the `lemma_*`
  proof functions state the laws that tie them together.
- `tests/` — tests of the library on concrete values.
- `app/` — the program around it: Swiss Ephemeris calls, floating-point
  longitudes and aspect detection, the bevy renderer that replays the drawing
  queue, a text chart (`--text`) and a windowed chart.
