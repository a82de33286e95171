# asfy_vol

A volume indicator for Wayland compositors with layer-shell support: an
overlay with a progress bar and an icon appears for two seconds whenever the
volume or the mute state of the default audio sink changes.

- `src/` is the library, verified with Verus:
  - `text`: searching, marker removal and Unicode whitespace trimming on characters;
  - `sink`: reading the sound server's volume report, the sink state, and the
    change detection that decides which states are shown;
  - `config`: the configuration, its defaults, the icon for a volume, and the
    step-by-step setup protocol (which file is read, written or checked next);
  - `paths`: paths as strings and the outside functions that compute them;
  - `display`: what the overlay shows for a sink state.
- `app/` is the program around it: GTK widgets, the sound server's processes,
  file reading and writing, TOML, and the floating-point arithmetic on volumes
  and levels.
- `tests/` exercises the library.

Where the configuration directory cannot be determined from the environment,
the library reports `NoConfigDir` (and setup ends with that error) rather
than aborting. Paths are held as UTF-8 strings; a configuration directory
whose name is not UTF-8 is converted lossily.
