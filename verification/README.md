# spectra

Building blocks for demoscene productions, with their logic verified by Verus.

`src/` is the verified library:

- `render::shader`: a GLSL syntax the library reasons about (`ast`), the shading language and
  Cheddar syntax helpers (`lang::syntax`, `cheddar::syntax`), and shader modules (`module`):
  dependency resolution through imports, folding of a module with its dependencies, uniform and
  function extraction, and the vertex shader interface.
- `render::input`, `render::output`, `render::type_channel`, `render::block`: render block
  interfaces, their GLSL struct declarations and the mangling of block names.
- `model`: index regeneration for wavefront obj geometries.
- `overlay`: the corners of overlay triangles and quads, in the order they are drawn.
- `cache`, `resource`, `id`: resource caches, typed identifiers, resource keys and the reload
  schedule of watched resources.
- `bootstrap`, `runner`: window options from the command line and the runner's reaction to
  window events.
- `gui`, `pulse`, `effect`, `renderer`, `logger`, `object`: smaller pieces.

`tests/` exercises the library. `app/` holds what Verus does not see: command-line parsing with
`clap`, conversions with the `glsl` crate, GLSL printing and mangling through its visitor, serde
copies of the render interface types, and obj model loading.
