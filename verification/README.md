# cookbook_core

A recipe database with a terminal editor and a small web interface. Recipes
are kept as TOML files; each recipe has steps, and each step its
ingredients, equipment, time and temperature.

The library under `src/` is written in Verus and every function in it is
proved against its contract:

- `rational`: fractions held in `i64`, and their sums as `num_rational`
  computes them.
- `units`: the time, temperature, mass and volume units and their
  abbreviations.
- `datatypes`: recipes, steps, ingredients and equipment; totals of times,
  ingredient lists, equipment lists and tag lists.
- `store`: the recipe store that the web workers share, with its editing
  locks.
- `web`: form data, routing, and what the pages show of the recipes.
- `viewer`: the page that shows a recipe.
- `tui`: keybindings, styles, key handling, widget state and screen plans
  of the terminal interface.
- `repo_prompt`: the answer to the prompt that offers to create a git
  repository.
- `text`: strings, decimal notation and ordering of text.

`app/` is the program around the library: command line, configuration,
files, the HTTP server, the terminal, git, and unit conversions, which
work on floating-point factors.
