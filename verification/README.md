# boom_cubes

The rules of a physics sandbox game in which the player fires heavy pucks
into stacks of cubes, written in Verus and proved against their contracts.

`src/` is the verified library:

- `levels` – the registered levels, ordered stably by identifier, and the
  level an index selects;
- `progress` – level progression: spawning, winning, losing and moving on;
- `firing` – what happens when the fire button is pressed, held, released
  or cancelled;
- `gravity` – gravity presets chosen with shortcut keys, and the rules of the helper that lets resting bodies sleep;
- `layout` – the cube grids of the levels, which scene objects become loose
  furniture, and the queue that activates them;
- `noise` – which collisions make a sound, and what sound;
- `sound` – picking sound samples: each draw goes through `take_draw`, which retries it exactly when it repeats a recent pick;
- `retime` – the least-recently-used cache of time-stretched samples;
- `palette` – reuse of palette materials;
- `game` – difficulty and score values;
- `text`, `random` – character comparisons, and random choices.

`app/` is the Bevy side: plugins, systems, rendering, audio processing and
everything that works in floating point, calling the library for each
decision. `tests/` exercises the library on concrete values.
