# gamesim

The logic of a small population simulation that runs its heavy work on the GPU through
Vulkan, written in Verus with its behaviour stated in contracts and proved.

- `src/` is the verified library. Its Vulkan side decides what the driver calls are made
  with and what their answers mean: version numbers, result codes, instance and device
  builders, the memory allocator (pages of free ranges, and books of pages), buffers,
  descriptor pools and sets, compute pipelines (built as a step-by-step state machine that
  states, for each step that fails, exactly which of the handles made so far it releases),
  command recording, fences, events, and the fence runtime that watches submitted work (a
  step function from what the driver answered to what to ask next). Its game
  side holds the random number generator, game time, person generation, population
  bookkeeping and the resolution of game data by name.
- `tests/` holds the tests, run against the compiled library.
- `app/` is the program around the library: loading the Vulkan loader, reading the game
  data files, and the floating-point parts of the game.
