# betacal-inference

Inference with beta calibration models, with the rule-based part of the
pipeline proved in Verus.

- `src/` — the verified library: binary64 values as IEEE-754 bit patterns
  (`float_bits`), calibration methods and their features (`method`), and the
  model record, its validation and the checking and clamping of inputs
  (`model`).
- `app/` — the `f64` model with its JSON form, and the numeric kernel
  (logarithms, weighted sum, logistic function) that runs on what the library
  has checked.
- `tests/` — tests of the library on concrete values.
