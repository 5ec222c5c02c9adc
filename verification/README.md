# rustitm

The decision layer of the ITS Irregular Terrain Model (Longley-Rice), with
its behaviour stated in contracts and proved by Verus.

- `src/` is the verified library: return codes and warning flags
  (`codes`), input validation and the error reported for each input
  (`validation`), the checks and propagation mode of a path (`path`), the
  decoding of the mode of variability (`variability`), index arithmetic
  over terrain profiles (`profile`) and the siting gains of area-mode
  terminals (`area`).
- `app/` holds the numeric kernel of the model, which works on
  floating-point values, and a small demonstration program. Every check,
  error code, warning flag and propagation mode it reports comes from the
  library.
- `tests/` exercises the library on concrete values.
