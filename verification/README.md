# whyyouforgetme

A desktop pet: a potted plant that lives one day per configured stretch of
real time, dies when left without water for too many days, can be put to
sleep, and remembers its longest life.

- `src/` is the verified library.
  - `plant.rs`: the plant's counters (`PlantState`), their mathematical view
    (`PlantView`), the day, water, sleep, reset and restore rules, and the
    proved laws about them (death after the configured dry spell, the record
    never dropping, death being final, well-formedness kept).
  - `display.rs`: the choices the screens make from the plant: picture,
    thirst class and colours, and the age written as `HHh MMm SSs`.
  - `game.rs`: the screens, what each key does on them, and which speech
    follows a passing day.
- `app/` is the program: clock readings (floating point), the SDL2 window,
  the JSON save file and the TOML configuration.
- `tests/` runs the library on concrete plants.
