# Scopobot

A pixel companion that reacts to the machine it lives on: battery, load, network,
audio, weather and the user's clicks. This crate holds its logic, verified with
Verus, and a terminal program around it.

## Layout

- `src/` — the verified library.
  - `reading`, `state` — device readings (hundredths of a unit), the normalised
    state, power modes.
  - `director` — turns state changes into animations: a bounded, expiring event
    queue with priorities and cooldowns, CPU and memory hysteresis, ambient
    activity and overlays.
  - `pack`, `imaging` — character packs: manifest rules, sprite strips and atlas
    regions, frame timing; pixel work is done by the `image` crate.
  - `companion` — hover, click and activity reactions, speech bubbles, health
    panel texts and badges.
  - `console` — the terminal's keys, layout, half-block cells and pause handling.
  - `sensors`, `weather`, `settings`, `launch`, `dialogue` — sampling decisions,
    weather rules, saved scale, launch modes, lines of dialogue.
  - `laws` — properties that span calls, proved over the specifications.
- `tests/` — scenarios on concrete values.
- `app/` — the program: command line, files, sensors, HTTP and the terminal
  screen.

The program runs with `scopobot --mode terminal`; `scopobot --validate-pack PATH`
checks a character pack.
